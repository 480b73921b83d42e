//! Phases whose outputs are replica counts.

use vstd::prelude::*;

use crate::controller::states::job_states::{BackingUp, Initializing, Restoring, Upgrading};
use crate::controller::states::migrating_filestore::MigratingFilestore;
use crate::controller::states::uninitialized::Uninitialized;
use crate::controller::state_machine::ReconcileSnapshot;
use crate::crd::odoo_instance::{OdooInstance, OdooInstancePhase};
use crate::text::{same_text, texts};

verus! {

/// The replica counts to set, for the Deployment of the instance and for the one
/// that runs scheduled actions.  Without a count a Deployment is left alone.
#[derive(Clone, Copy, Debug, PartialEq, Eq, Structural)]
pub struct Scaling {
    pub web: Option<i32>,
    pub cron: Option<i32>,
}

/// Both Deployments are left alone.
pub open spec fn unscaled() -> Scaling {
    Scaling { web: None, cron: None }
}

/// The instance is down.
pub open spec fn web_down() -> Scaling {
    Scaling { web: Some(0), cron: None }
}

/// The instance and its scheduled actions are down.
pub open spec fn all_down() -> Scaling {
    Scaling { web: Some(0), cron: Some(0) }
}

/// The initial phase: it has no outputs of its own.
pub struct Provisioning;

/// The init job failed: the instance stays down.
pub struct InitFailed;

/// Waiting for the desired replicas to become ready.
pub struct Starting;

/// The steady state: the number of replicas follows the spec.
pub struct Running;

/// Some replicas are ready but not all: what is desired is set already.
pub struct Degraded;

/// No replicas are desired.
pub struct Stopped;

/// Something went wrong: no outputs.
pub struct Error;

impl Provisioning {
    /// The outputs of the phase.
    pub fn ensure(&self) -> (r: Scaling)
        ensures
            r == unscaled(),
    {
        Scaling { web: None, cron: None }
    }
}

impl InitFailed {
    /// The outputs of the phase.
    pub fn ensure(&self) -> (r: Scaling)
        ensures
            r == web_down(),
    {
        Scaling { web: Some(0), cron: None }
    }
}

/// The replica counts of an instance that starts: those that the spec asks for.
pub open spec fn starting_scaling(instance: OdooInstance) -> Scaling {
    Scaling { web: Some(instance.spec.replicas), cron: Some(instance.spec.cron.replicas) }
}

impl Starting {
    /// The outputs of the phase.
    pub fn ensure(&self, instance: &OdooInstance) -> (r: Scaling)
        ensures
            r == starting_scaling(*instance),
    {
        Scaling { web: Some(instance.spec.replicas), cron: Some(instance.spec.cron.replicas) }
    }
}

/// An event that was reported about a pod, and how often.
#[derive(Clone, Debug)]
pub struct PodEvent {
    pub pod: String,
    pub reason: String,
    pub count: i32,
}

/// Whether an event says that a volume still cannot be mounted: it is reported
/// more than once.
pub open spec fn is_mount_failure(e: PodEvent) -> bool {
    &&& e.reason@ == "FailedMount"@ || e.reason@ == "FailedAttachVolume"@
    &&& e.count > 1
}

/// Whether a pod is stuck on the mount of a volume.
pub open spec fn is_stuck(pod: Seq<char>, events: Seq<PodEvent>) -> bool {
    exists|i: int|
        0 <= i < events.len() && #[trigger] events[i].pod@ == pod && is_mount_failure(events[i])
}

/// The pods of a list that are stuck on the mount of a volume, in order.
pub open spec fn stuck_pods(pods: Seq<Seq<char>>, events: Seq<PodEvent>) -> Seq<Seq<char>>
    decreases pods.len(),
{
    if pods.len() == 0 {
        Seq::empty()
    } else if is_stuck(pods.last(), events) {
        stuck_pods(pods.drop_last(), events).push(pods.last())
    } else {
        stuck_pods(pods.drop_last(), events)
    }
}

fn pod_is_stuck(pod: &str, events: &Vec<PodEvent>) -> (r: bool)
    ensures
        r == is_stuck(pod@, events@),
{
    let mut i: usize = 0;
    while i < events.len()
        invariant
            i <= events.len(),
            forall|j: int|
                0 <= j < i ==> !(#[trigger] events@[j].pod@ == pod@ && is_mount_failure(events@[j])),
        decreases events.len() - i,
    {
        let e = &events[i];
        let mount = same_text(e.reason.as_str(), "FailedMount") || same_text(
            e.reason.as_str(),
            "FailedAttachVolume",
        );
        if mount && e.count > 1 && same_text(e.pod.as_str(), pod) {
            assert(events@[i as int].pod@ == pod@ && is_mount_failure(events@[i as int]));
            return true;
        }
        i += 1;
    }
    false
}

impl Starting {
    /// The pods of the instance to delete because the mount of a volume keeps
    /// failing: their Deployment creates them anew, with a fresh attachment.
    pub fn recover_stuck_mounts(&self, pods: &Vec<String>, events: &Vec<PodEvent>) -> (r: Vec<
        String,
    >)
        ensures
            texts(r@) == stuck_pods(texts(pods@), events@),
    {
        let ghost names = texts(pods@);
        let mut out: Vec<String> = Vec::new();
        let mut i: usize = 0;
        assert(texts(out@) =~= stuck_pods(names.take(0), events@));
        while i < pods.len()
            invariant
                i <= pods.len(),
                names == texts(pods@),
                texts(out@) == stuck_pods(names.take(i as int), events@),
            decreases pods.len() - i,
        {
            let ghost before = out@;
            assert(names[i as int] == pods@[i as int]@);
            assert(names.take(i + 1).drop_last() =~= names.take(i as int));
            if pod_is_stuck(pods[i].as_str(), events) {
                out.push(pods[i].clone());
                assert(texts(out@) =~= texts(before).push(names[i as int]));
            }
            i += 1;
        }
        assert(names.take(i as int) =~= names);
        out
    }
}

/// A pod is deleted exactly if it belongs to the instance and is stuck.
pub proof fn law_only_stuck_pods_are_deleted(
    pods: Seq<Seq<char>>,
    events: Seq<PodEvent>,
    pod: Seq<char>,
)
    ensures
        stuck_pods(pods, events).contains(pod) == (pods.contains(pod) && is_stuck(pod, events)),
    decreases pods.len(),
{
    if pods.len() > 0 {
        let rest = pods.drop_last();
        let less = stuck_pods(rest, events);
        law_only_stuck_pods_are_deleted(rest, events, pod);
        assert(pods =~= rest.push(pods.last()));
        assert(pods.contains(pod) == (rest.contains(pod) || pods.last() == pod)) by {
            broadcast use vstd::seq_lib::group_seq_properties;

        }
        assert(less.push(pods.last()).contains(pod) == (less.contains(pod) || pods.last() == pod))
            by {
            broadcast use vstd::seq_lib::group_seq_properties;

        }
    }
}

/// The replica counts of a running instance: the desired count, unless it is set
/// already.
pub open spec fn running_scaling(instance: OdooInstance, s: ReconcileSnapshot) -> Scaling {
    Scaling {
        web: if s.deployment_replicas != instance.spec.replicas {
            Some(instance.spec.replicas)
        } else {
            None
        },
        cron: None,
    }
}

impl Running {
    /// The outputs of the phase.
    pub fn ensure(&self, instance: &OdooInstance, snapshot: &ReconcileSnapshot) -> (r: Scaling)
        ensures
            r == running_scaling(*instance, *snapshot),
    {
        if snapshot.deployment_replicas != instance.spec.replicas {
            Scaling { web: Some(instance.spec.replicas), cron: None }
        } else {
            Scaling { web: None, cron: None }
        }
    }
}

impl Degraded {
    /// The outputs of the phase.
    pub fn ensure(&self) -> (r: Scaling)
        ensures
            r == unscaled(),
    {
        Scaling { web: None, cron: None }
    }
}

impl Stopped {
    /// The outputs of the phase.
    pub fn ensure(&self) -> (r: Scaling)
        ensures
            r == web_down(),
    {
        Scaling { web: Some(0), cron: None }
    }
}

impl Error {
    /// The outputs of the phase.
    pub fn ensure(&self) -> (r: Scaling)
        ensures
            r == unscaled(),
    {
        Scaling { web: None, cron: None }
    }
}

/// The replica counts that a phase sets.
pub open spec fn phase_scaling(
    phase: OdooInstancePhase,
    instance: OdooInstance,
    s: ReconcileSnapshot,
) -> Scaling {
    match phase {
        OdooInstancePhase::Provisioning => unscaled(),
        OdooInstancePhase::Uninitialized => all_down(),
        OdooInstancePhase::Initializing => web_down(),
        OdooInstancePhase::InitFailed => web_down(),
        OdooInstancePhase::Starting => starting_scaling(instance),
        OdooInstancePhase::Running => running_scaling(instance, s),
        OdooInstancePhase::Degraded => unscaled(),
        OdooInstancePhase::Stopped => web_down(),
        OdooInstancePhase::Upgrading => web_down(),
        OdooInstancePhase::Restoring => web_down(),
        OdooInstancePhase::BackingUp => unscaled(),
        OdooInstancePhase::MigratingFilestore => all_down(),
        OdooInstancePhase::Error => unscaled(),
    }
}

/// The replica counts that a phase sets.
pub fn state_for(
    phase: OdooInstancePhase,
    instance: &OdooInstance,
    snapshot: &ReconcileSnapshot,
) -> (r: Scaling)
    ensures
        r == phase_scaling(phase, *instance, *snapshot),
{
    match phase {
        OdooInstancePhase::Provisioning => Provisioning.ensure(),
        OdooInstancePhase::Uninitialized => Uninitialized.scaling(),
        OdooInstancePhase::Initializing => Initializing.scaling(),
        OdooInstancePhase::InitFailed => InitFailed.ensure(),
        OdooInstancePhase::Starting => Starting.ensure(instance),
        OdooInstancePhase::Running => Running.ensure(instance, snapshot),
        OdooInstancePhase::Degraded => Degraded.ensure(),
        OdooInstancePhase::Stopped => Stopped.ensure(),
        OdooInstancePhase::Upgrading => Upgrading.on_enter(),
        OdooInstancePhase::Restoring => Restoring.scaling(),
        OdooInstancePhase::BackingUp => BackingUp.scaling(),
        OdooInstancePhase::MigratingFilestore => MigratingFilestore.scaling(),
        OdooInstancePhase::Error => Error.ensure(),
    }
}

/// The phases in which a job works on the database or the filestore alone.
pub open spec fn is_exclusive(phase: OdooInstancePhase) -> bool {
    ||| phase == OdooInstancePhase::Uninitialized
    ||| phase == OdooInstancePhase::Initializing
    ||| phase == OdooInstancePhase::Upgrading
    ||| phase == OdooInstancePhase::Restoring
    ||| phase == OdooInstancePhase::MigratingFilestore
}

/// While a job works on the database or the filestore alone the instance is
/// down; a backup leaves it up.
pub proof fn law_exclusive_jobs_run_alone(
    phase: OdooInstancePhase,
    instance: OdooInstance,
    s: ReconcileSnapshot,
)
    ensures
        is_exclusive(phase) ==> phase_scaling(phase, instance, s).web == Some(0i32),
        phase == OdooInstancePhase::BackingUp ==> phase_scaling(phase, instance, s) == unscaled(),
{
}

/// An instance for which no replicas are desired is never scaled up.
pub proof fn law_stopped_instances_stay_down(
    phase: OdooInstancePhase,
    instance: OdooInstance,
    s: ReconcileSnapshot,
)
    requires
        instance.spec.replicas == 0,
    ensures
        phase_scaling(phase, instance, s).web matches Some(n) ==> n == 0,
{
}

/// Once the Deployment has the desired count a running instance sets nothing
/// more.
pub proof fn law_running_outputs_settle(instance: OdooInstance, s: ReconcileSnapshot)
    requires
        s.deployment_replicas == instance.spec.replicas,
    ensures
        running_scaling(instance, s) == unscaled(),
{
}

/// What a phase does to the replicas.  Starting asks for what the spec asks for, for the
/// web and for scheduled actions, and running keeps to it for the web.  Phases without
/// a usable database, stopped ones and those in which a job works alone take the web
/// down.  Provisioning, degraded, backing up and the error phase change nothing.
pub proof fn law_phases_set_their_replicas(
    phase: OdooInstancePhase,
    instance: &OdooInstance,
    snapshot: &ReconcileSnapshot,
    r: Scaling,
)
    requires
        call_ensures(state_for, (phase, instance, snapshot), r),
    ensures
        match phase {
            OdooInstancePhase::Starting => r.web == Some(instance.spec.replicas) && r.cron == Some(
                instance.spec.cron.replicas,
            ),
            OdooInstancePhase::Running => {
                &&& snapshot.deployment_replicas != instance.spec.replicas ==> r.web == Some(
                    instance.spec.replicas,
                )
                &&& snapshot.deployment_replicas == instance.spec.replicas ==> r.web is None
                &&& r.cron is None
            },
            OdooInstancePhase::Uninitialized
            | OdooInstancePhase::MigratingFilestore => r.web == Some(0i32) && r.cron == Some(0i32),
            OdooInstancePhase::Initializing | OdooInstancePhase::InitFailed
            | OdooInstancePhase::Stopped | OdooInstancePhase::Upgrading
            | OdooInstancePhase::Restoring => r.web == Some(0i32) && r.cron is None,
            OdooInstancePhase::Provisioning | OdooInstancePhase::Degraded
            | OdooInstancePhase::BackingUp
            | OdooInstancePhase::Error => r.web is None && r.cron is None,
        },
{
}

/// A pod of the instance is deleted exactly if a mount of it has failed more than once.
pub proof fn law_stuck_pods_are_deleted(
    phase: &Starting,
    pods: &Vec<String>,
    events: &Vec<PodEvent>,
    r: Vec<String>,
    pod: Seq<char>,
)
    requires
        call_ensures(Starting::recover_stuck_mounts, (phase, pods, events), r),
    ensures
        texts(r@).contains(pod) <==> texts(pods@).contains(pod) && exists|i: int|
            0 <= i < events@.len() && (#[trigger] events@[i]).pod@ == pod && events@[i].count > 1
                && (events@[i].reason@ == "FailedMount"@ || events@[i].reason@
                == "FailedAttachVolume"@),
        r@.len() <= pods@.len(),
{
    law_only_stuck_pods_are_deleted(texts(pods@), events@, pod);
    lemma_stuck_length(texts(pods@), events@);
    assert(texts(r@).len() == r@.len());
    assert(texts(pods@).len() == pods@.len());
    if is_stuck(pod, events@) {
        let i = choose|i: int|
            0 <= i < events@.len() && #[trigger] events@[i].pod@ == pod && is_mount_failure(
                events@[i],
            );
        assert(events@[i].pod@ == pod);
    }
    if exists|i: int|
        0 <= i < events@.len() && (#[trigger] events@[i]).pod@ == pod && events@[i].count > 1 && (
        events@[i].reason@ == "FailedMount"@ || events@[i].reason@ == "FailedAttachVolume"@) {
        let i = choose|i: int|
            0 <= i < events@.len() && (#[trigger] events@[i]).pod@ == pod && events@[i].count > 1
                && (events@[i].reason@ == "FailedMount"@ || events@[i].reason@
                == "FailedAttachVolume"@);
        assert(events@[i].pod@ == pod && is_mount_failure(events@[i]));
    }
}

proof fn lemma_stuck_length(pods: Seq<Seq<char>>, events: Seq<PodEvent>)
    ensures
        stuck_pods(pods, events).len() <= pods.len(),
    decreases pods.len(),
{
    if pods.len() > 0 {
        lemma_stuck_length(pods.drop_last(), events);
    }
}

} // verus!
