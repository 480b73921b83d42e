//! The reconciliation of an instance: which steps it takes, what it writes to
//! the status and whom it tells.

use vstd::prelude::*;

use crate::controller::states::job_states::{is_event, make_event, EventText};
use crate::controller::state_machine::{Action, ReconcileSnapshot};
use crate::crd::meta::{clone_opt, opt_text, ObjectMeta};
use crate::crd::odoo_instance::{OdooInstance, OdooInstancePhase, OdooInstanceStatus};
use crate::crd::shared::Condition;
use crate::error::Error;
use crate::helpers::{
    is_clock_text, odoo_username, username_text, utc_now, utc_now_odoo, Instant,
};
use crate::postgres::PostgresClusterConfig;
use crate::secret_data::{bytes_under, find_text, lossy_text};
use crate::text::{
    chars_of, comes_before, concat2, concat3, concat4, debug_quoted, debug_text, same_text, texts,
    text_less,
};

verus! {

// ── References and finalizers ────────────────────────────────────────────────

/// The finalizer that keeps an instance until its database role is deleted.
pub const FINALIZER: &'static str = "bemade.org/postgres-cleanup";

/// A finalizer that nobody removes any more.
pub const KOPF_FINALIZER: &'static str = "kopf.zalando.org/KopfFinalizerMarker";

/// A reference to an object, as events carry it.
#[derive(Clone, Debug)]
pub struct ObjectReference {
    pub api_version: String,
    pub kind: String,
    pub name: String,
    pub namespace: Option<String>,
    pub uid: Option<String>,
    pub resource_version: Option<String>,
}

/// Makes a reference to a resource of this operator.
pub fn kube_object_ref(kind: &str, meta: &ObjectMeta) -> (r: ObjectReference)
    ensures
        r.api_version@ == "bemade.org/v1alpha1"@,
        r.kind@ == kind@,
        r.name@ == meta.name_text(),
        r.namespace == meta.namespace,
        r.uid == meta.uid,
        r.resource_version == meta.resource_version,
{
    ObjectReference {
        api_version: "bemade.org/v1alpha1".to_owned(),
        kind: kind.to_owned(),
        name: meta.name_any(),
        namespace: clone_opt(&meta.namespace),
        uid: clone_opt(&meta.uid),
        resource_version: clone_opt(&meta.resource_version),
    }
}

/// A list without the entries that equal a given one.
pub open spec fn without(s: Seq<Seq<char>>, x: Seq<char>) -> Seq<Seq<char>>
    decreases s.len(),
{
    if s.len() == 0 {
        Seq::empty()
    } else if s.last() == x {
        without(s.drop_last(), x)
    } else {
        without(s.drop_last(), x).push(s.last())
    }
}

/// The finalizers that an instance keeps when the stale one is taken away; none
/// where it does not have it.
pub fn strip_stale_finalizer(instance: &OdooInstance) -> (r: Option<Vec<String>>)
    ensures
        match r {
            Some(v) => texts(instance.metadata.finalizers@).contains(KOPF_FINALIZER@) && texts(v@)
                == without(texts(instance.metadata.finalizers@), KOPF_FINALIZER@),
            None => !texts(instance.metadata.finalizers@).contains(KOPF_FINALIZER@),
        },
{
    let all = &instance.metadata.finalizers;
    let ghost names = texts(all@);
    let mut found = false;
    let mut out: Vec<String> = Vec::new();
    let mut i: usize = 0;
    assert(texts(out@) =~= without(names.take(0), KOPF_FINALIZER@));
    while i < all.len()
        invariant
            i <= all.len(),
            names == texts(all@),
            texts(out@) == without(names.take(i as int), KOPF_FINALIZER@),
            found == exists|j: int| 0 <= j < i && #[trigger] names[j] == KOPF_FINALIZER@,
        decreases all.len() - i,
    {
        let ghost before = out@;
        assert(names[i as int] == all@[i as int]@);
        assert(names.take(i + 1).drop_last() =~= names.take(i as int));
        if same_text(all[i].as_str(), KOPF_FINALIZER) {
            found = true;
        } else {
            out.push(all[i].clone());
            assert(texts(out@) =~= texts(before).push(names[i as int]));
        }
        i += 1;
    }
    assert(names.take(i as int) =~= names);
    if found {
        Some(out)
    } else {
        None
    }
}

/// A list without some entry holds every other entry and not that one.
pub proof fn law_without_takes_all_away(s: Seq<Seq<char>>, x: Seq<char>, y: Seq<char>)
    ensures
        !without(s, x).contains(x),
        y != x ==> without(s, x).contains(y) == s.contains(y),
    decreases s.len(),
{
    if s.len() > 0 {
        let t = s.drop_last();
        law_without_takes_all_away(t, x, y);
        let r = without(t, x);
        if s.last() != x {
            let w = r.push(s.last());
            assert(w =~= without(s, x));
            assert forall|j: int| 0 <= j < w.len() implies w[j] != x by {
                if j < r.len() {
                    assert(w[j] == r[j]);
                    assert(r.contains(r[j]));
                }
            }
            if r.contains(y) {
                let j = choose|j: int| 0 <= j < r.len() && r[j] == y;
                assert(w[j] == y);
            }
            if w.contains(y) && y != s.last() {
                let j = choose|j: int| 0 <= j < w.len() && w[j] == y;
                assert(r[j] == y);
            }
            if y == s.last() {
                assert(w[r.len() as int] == y);
            }
        }
        if t.contains(y) {
            let j = choose|j: int| 0 <= j < t.len() && t[j] == y;
            assert(s[j] == y);
        }
        if s.contains(y) && y != s.last() {
            let j = choose|j: int| 0 <= j < s.len() && s[j] == y;
            assert(t[j] == y);
        }
        if y == s.last() {
            assert(s[s.len() - 1] == y);
        }
    } else {
        assert(without(s, x) =~= Seq::empty());
    }
}

// ── Errors ───────────────────────────────────────────────────────────────────

/// Whether a text holds another one at a given place.
pub open spec fn holds_at(s: Seq<char>, part: Seq<char>, i: int) -> bool {
    0 <= i && i + part.len() <= s.len() && s.subrange(i, i + part.len()) == part
}

/// Whether a text holds another one.
pub open spec fn holds_text(s: Seq<char>, part: Seq<char>) -> bool {
    exists|i: int| #[trigger] holds_at(s, part, i)
}

/// Whether a text holds another one.
pub fn contains_text(s: &str, part: &str) -> (r: bool)
    ensures
        r == holds_text(s@, part@),
{
    let text = chars_of(s);
    let want = chars_of(part);
    if want.len() > text.len() {
        proof {
            assert forall|i: int| !#[trigger] holds_at(s@, part@, i) by {}
        }
        return false;
    }
    if want.len() == 0 {
        proof {
            assert(s@.subrange(0, 0) =~= part@);
            assert(holds_at(s@, part@, 0));
        }
        return true;
    }
    let last: usize = text.len() - want.len();
    let mut i: usize = 0;
    while i <= last
        invariant
            text@ == s@,
            want@ == part@,
            i <= last + 1,
            last + want.len() == text.len(),
            last < usize::MAX,
            forall|k: int| 0 <= k < i ==> !#[trigger] holds_at(s@, part@, k),
        decreases last + 1 - i,
    {
        let mut j: usize = 0;
        while j < want.len() && text[i + j] == want[j]
            invariant
                i <= last,
                last + want.len() == text.len(),
                j <= want.len(),
                forall|k: int| 0 <= k < j ==> text@[i + k] == #[trigger] want@[k],
            decreases want.len() - j,
        {
            j += 1;
        }
        if j == want.len() {
            proof {
                assert(s@.subrange(i as int, i + part@.len()) =~= part@);
                assert(holds_at(s@, part@, i as int));
            }
            return true;
        }
        proof {
            assert(!holds_at(s@, part@, i as int)) by {
                if holds_at(s@, part@, i as int) {
                    assert(s@.subrange(i as int, i + part@.len())[j as int] == part@[j as int]);
                }
            }
            if i == last {
                assert forall|k: int| !#[trigger] holds_at(s@, part@, k) by {}
            }
        }
        if i == last {
            return false;
        }
        i += 1;
    }
    false
}

/// How long an error is waited out: 30 seconds.
pub const ERROR_NANOS: u128 = 30_000_000_000;

/// Whether an error only says that the object is gone.
pub open spec fn is_gone(error: Error) -> bool {
    error matches Error::Finalizer(m) && holds_text(m@, "ObjectNotFound"@)
}

/// When to look again after an error: after a while, unless the object is gone.
pub fn error_policy(error: &Error) -> (r: Action)
    ensures
        r == if is_gone(*error) {
            Action::AwaitChange
        } else {
            Action::RequeueAfter { nanos: ERROR_NANOS }
        },
{
    if let Error::Finalizer(m) = error {
        if contains_text(m.as_str(), "ObjectNotFound") {
            return Action::AwaitChange;
        }
    }
    Action::RequeueAfter { nanos: ERROR_NANOS }
}

// ── Steps ────────────────────────────────────────────────────────────────────

/// What is put in place for every instance.
#[derive(Clone, Copy, Debug, PartialEq, Eq, Structural)]
pub enum Child {
    ImagePullSecret,
    UserSecret,
    PostgresRole,
    FilestoreClaim,
    ConfigMap,
    Service,
    Ingress,
    Deployment,
}

/// A step of the reconciliation.
#[derive(Clone, Copy, Debug, PartialEq, Eq, Structural)]
pub enum ReconcileStage {
    /// Write the operator's defaults to the spec where it is unset.
    ApplyDefaults,
    /// Tell that the defaults were written.
    AnnounceDefaults,
    /// Read the configuration of the PostgreSQL cluster.
    LoadCluster,
    /// Put a child in place.
    Ensure { child: Child },
    /// Observe the cluster.
    Gather,
    /// Write what was observed to the status, if it changed.
    UpdateStatus,
    /// Run the state machine.
    RunStateMachine,
    /// Read the phase that the instance is in now.
    ReadPhase,
    /// Tell about a new phase.
    AnnouncePhase,
    /// The reconciliation is over; the next one is due at once, or when the state
    /// machine says so.
    Finished { at_once: bool },
    /// The step that was made last failed.
    Failed,
}

/// How a step went.
#[derive(Clone, Copy, Debug, PartialEq, Eq, Structural)]
pub enum StageOutcome {
    /// The step succeeded; whether it changed the spec.
    Done { changed: bool },
    Failed,
}

/// What is put in place after a child.
pub open spec fn child_after(child: Child) -> Option<Child> {
    match child {
        Child::ImagePullSecret => Some(Child::UserSecret),
        Child::UserSecret => Some(Child::PostgresRole),
        Child::PostgresRole => Some(Child::FilestoreClaim),
        Child::FilestoreClaim => Some(Child::ConfigMap),
        Child::ConfigMap => Some(Child::Service),
        Child::Service => Some(Child::Ingress),
        Child::Ingress => Some(Child::Deployment),
        Child::Deployment => None,
    }
}

/// The step that follows another one.
pub open spec fn stage_after(stage: ReconcileStage, outcome: StageOutcome) -> ReconcileStage {
    match stage {
        ReconcileStage::AnnounceDefaults => ReconcileStage::Finished { at_once: true },
        ReconcileStage::AnnouncePhase => ReconcileStage::Finished { at_once: false },
        ReconcileStage::Finished { .. } => stage,
        ReconcileStage::Failed => stage,
        _ => match outcome {
            StageOutcome::Failed => ReconcileStage::Failed,
            StageOutcome::Done { changed } => match stage {
                ReconcileStage::ApplyDefaults => if changed {
                    ReconcileStage::AnnounceDefaults
                } else {
                    ReconcileStage::LoadCluster
                },
                ReconcileStage::LoadCluster => ReconcileStage::Ensure {
                    child: Child::ImagePullSecret,
                },
                ReconcileStage::Ensure { child } => match child_after(child) {
                    Some(next) => ReconcileStage::Ensure { child: next },
                    None => ReconcileStage::Gather,
                },
                ReconcileStage::Gather => ReconcileStage::UpdateStatus,
                ReconcileStage::UpdateStatus => ReconcileStage::RunStateMachine,
                ReconcileStage::RunStateMachine => ReconcileStage::ReadPhase,
                _ => ReconcileStage::AnnouncePhase,
            },
        },
    }
}

fn next_child(child: Child) -> (r: Option<Child>)
    ensures
        r == child_after(child),
{
    match child {
        Child::ImagePullSecret => Some(Child::UserSecret),
        Child::UserSecret => Some(Child::PostgresRole),
        Child::PostgresRole => Some(Child::FilestoreClaim),
        Child::FilestoreClaim => Some(Child::ConfigMap),
        Child::ConfigMap => Some(Child::Service),
        Child::Service => Some(Child::Ingress),
        Child::Ingress => Some(Child::Deployment),
        Child::Deployment => None,
    }
}

/// Goes on to the step that follows.  Events are sent as far as possible: a
/// failure there changes nothing.
pub fn reconcile_instance(stage: ReconcileStage, outcome: StageOutcome) -> (r: ReconcileStage)
    ensures
        r == stage_after(stage, outcome),
{
    match stage {
        ReconcileStage::AnnounceDefaults => ReconcileStage::Finished { at_once: true },
        ReconcileStage::AnnouncePhase => ReconcileStage::Finished { at_once: false },
        ReconcileStage::Finished { .. } => stage,
        ReconcileStage::Failed => stage,
        _ => {
            let changed = match outcome {
                StageOutcome::Failed => return ReconcileStage::Failed,
                StageOutcome::Done { changed } => changed,
            };
            match stage {
                ReconcileStage::ApplyDefaults => if changed {
                    ReconcileStage::AnnounceDefaults
                } else {
                    ReconcileStage::LoadCluster
                },
                ReconcileStage::LoadCluster => ReconcileStage::Ensure {
                    child: Child::ImagePullSecret,
                },
                ReconcileStage::Ensure { child } => match next_child(child) {
                    Some(next) => ReconcileStage::Ensure { child: next },
                    None => ReconcileStage::Gather,
                },
                ReconcileStage::Gather => ReconcileStage::UpdateStatus,
                ReconcileStage::UpdateStatus => ReconcileStage::RunStateMachine,
                ReconcileStage::RunStateMachine => ReconcileStage::ReadPhase,
                _ => ReconcileStage::AnnouncePhase,
            }
        },
    }
}

/// The place of a child in the order.
pub open spec fn child_rank(child: Child) -> int {
    match child {
        Child::ImagePullSecret => 0,
        Child::UserSecret => 1,
        Child::PostgresRole => 2,
        Child::FilestoreClaim => 3,
        Child::ConfigMap => 4,
        Child::Service => 5,
        Child::Ingress => 6,
        Child::Deployment => 7,
    }
}

/// How far a reconciliation has come.
pub open spec fn stage_rank(stage: ReconcileStage) -> int {
    match stage {
        ReconcileStage::ApplyDefaults => 0,
        ReconcileStage::AnnounceDefaults => 1,
        ReconcileStage::LoadCluster => 2,
        ReconcileStage::Ensure { child } => 3 + child_rank(child),
        ReconcileStage::Gather => 11,
        ReconcileStage::UpdateStatus => 12,
        ReconcileStage::RunStateMachine => 13,
        ReconcileStage::ReadPhase => 14,
        ReconcileStage::AnnouncePhase => 15,
        ReconcileStage::Finished { .. } => 16,
        ReconcileStage::Failed => 16,
    }
}

/// Every step brings a reconciliation forward, so it comes to an end.
pub proof fn law_reconciliation_makes_progress(stage: ReconcileStage, outcome: StageOutcome)
    ensures
        0 <= stage_rank(stage) <= 16,
        stage_rank(stage) < 16 ==> stage_rank(stage_after(stage, outcome)) > stage_rank(stage),
{
}

/// The state machine runs only when every child is in place, and a child is put
/// in place only after the one before it.
pub proof fn law_children_come_first(stage: ReconcileStage, outcome: StageOutcome)
    ensures
        stage_after(stage, outcome) == ReconcileStage::RunStateMachine ==> stage
            == ReconcileStage::UpdateStatus && outcome is Done,
        stage_after(stage, outcome) == ReconcileStage::UpdateStatus ==> stage
            == ReconcileStage::Gather && outcome is Done,
        stage_after(stage, outcome) == ReconcileStage::Gather ==> stage == (
        ReconcileStage::Ensure { child: Child::Deployment }) && outcome is Done,
        forall|c: Child| #[trigger]
            child_rank(c) > 0 && stage_after(stage, outcome) == (ReconcileStage::Ensure {
                child: c,
            }) ==> outcome is Done && (stage matches ReconcileStage::Ensure { child }
                && child_rank(child) == child_rank(c) - 1),
{
}

/// The event after the defaults were written.
pub fn defaults_event() -> (r: EventText)
    ensures
        is_event(
            r,
            false,
            "DefaultsApplied"@,
            "Reconcile"@,
            "Operator defaults applied to spec"@,
        ),
{
    make_event(
        false,
        "DefaultsApplied",
        "Reconcile",
        "Operator defaults applied to spec".to_owned(),
    )
}

// ── Status ───────────────────────────────────────────────────────────────────

/// The address of an instance: that of its first host.
pub open spec fn instance_url(instance: OdooInstance) -> Option<Seq<char>> {
    if instance.spec.ingress.hosts@.len() > 0 {
        Some("https://"@ + instance.spec.ingress.hosts@[0]@)
    } else {
        None
    }
}

/// The address of an instance.
pub fn url_of(instance: &OdooInstance) -> (r: Option<String>)
    ensures
        opt_text(r) == instance_url(*instance),
{
    if instance.spec.ingress.hosts.len() > 0 {
        Some(concat2("https://", instance.spec.ingress.hosts[0].as_str()))
    } else {
        None
    }
}

/// Whether a status already says what would be written to it.
pub open spec fn says_so(
    status: OdooInstanceStatus,
    instance: OdooInstance,
    s: ReconcileSnapshot,
) -> bool {
    &&& status.ready_replicas == s.ready_replicas
    &&& status.ready == (instance.phase() == OdooInstancePhase::Running)
    &&& opt_text(status.url) == instance_url(instance)
    &&& status.target_replicas == Some(instance.spec.replicas)
    &&& status.db_initialized == s.db_initialized
}

/// Whether the status has to be written.
pub open spec fn status_changed(instance: OdooInstance, s: ReconcileSnapshot) -> bool {
    match instance.status {
        Some(status) => !says_so(status, instance, s),
        None => true,
    }
}

/// What is written to the status besides the phase.
#[derive(Clone, Debug)]
pub struct StatusUpdate {
    pub ready_replicas: i32,
    pub ready: bool,
    pub url: Option<String>,
    pub target_replicas: i32,
    pub db_initialized: bool,
    pub conditions: Vec<Condition>,
}

/// Whether an update says what was observed.
pub open spec fn is_update(
    u: StatusUpdate,
    instance: OdooInstance,
    s: ReconcileSnapshot,
    now: Instant,
) -> bool {
    &&& u.ready_replicas == s.ready_replicas
    &&& u.ready == (instance.phase() == OdooInstancePhase::Running)
    &&& opt_text(u.url) == instance_url(instance)
    &&& u.target_replicas == instance.spec.replicas
    &&& u.db_initialized == s.db_initialized
    &&& are_conditions(
        u.conditions@,
        instance.phase(),
        match instance.metadata.generation {
            Some(g) => g,
            None => 0,
        },
        now,
    )
}

fn same_opt(a: &Option<String>, b: &Option<String>) -> (r: bool)
    ensures
        r == (opt_text(*a) == opt_text(*b)),
{
    match a {
        Some(x) => match b {
            Some(y) => same_text(x.as_str(), y.as_str()),
            None => false,
        },
        None => b.is_none(),
    }
}

/// What is written to the status at a given time, if anything changed.
pub fn status_update_at(instance: &OdooInstance, snapshot: &ReconcileSnapshot, now: Instant) -> (r:
    Option<StatusUpdate>)
    ensures
        match r {
            Some(u) => status_changed(*instance, *snapshot) && is_update(
                u,
                *instance,
                *snapshot,
                now,
            ),
            None => !status_changed(*instance, *snapshot),
        },
{
    let url = url_of(instance);
    let phase = instance.current_phase();
    let ready = phase == OdooInstancePhase::Running;
    if let Some(s) = &instance.status {
        let same_target = match s.target_replicas {
            Some(n) => n == instance.spec.replicas,
            None => false,
        };
        if s.ready_replicas == snapshot.ready_replicas && s.ready == ready && same_opt(
            &s.url,
            &url,
        ) && same_target && s.db_initialized == snapshot.db_initialized {
            return None;
        }
    }
    let generation: i64 = match instance.metadata.generation {
        Some(g) => g,
        None => 0,
    };
    Some(
        StatusUpdate {
            ready_replicas: snapshot.ready_replicas,
            ready,
            url,
            target_replicas: instance.spec.replicas,
            db_initialized: snapshot.db_initialized,
            conditions: phase_to_conditions_at(&phase, generation, now),
        },
    )
}

/// What is written to the status, if anything changed.
pub fn status_update(instance: &OdooInstance, snapshot: &ReconcileSnapshot) -> (r: Option<
    StatusUpdate,
>)
    ensures
        match r {
            Some(u) => status_changed(*instance, *snapshot) && exists|now: Instant| #[trigger]
                is_update(u, *instance, *snapshot, now),
            None => !status_changed(*instance, *snapshot),
        },
{
    let now = utc_now();
    status_update_at(instance, snapshot, now)
}

/// Whether a status says what an update wrote.
pub open spec fn is_updated(status: OdooInstanceStatus, u: StatusUpdate) -> bool {
    &&& status.ready_replicas == u.ready_replicas
    &&& status.ready == u.ready
    &&& status.url == u.url
    &&& status.target_replicas == Some(u.target_replicas)
    &&& status.db_initialized == u.db_initialized
}

/// An update is written once: the same observation leads to a second one exactly if
/// the instance has come to run, or ceased to, in the meantime.
pub proof fn law_updates_settle(
    before: OdooInstance,
    after: OdooInstance,
    s: ReconcileSnapshot,
    u: StatusUpdate,
    now: Instant,
)
    requires
        is_update(u, before, s, now),
        after.spec == before.spec,
        after.status matches Some(status) && is_updated(status, u),
    ensures
        status_changed(after, s) == ((before.phase() == OdooInstancePhase::Running) != (
        after.phase() == OdooInstancePhase::Running)),
        after.phase() == before.phase() ==> !status_changed(after, s),
{
}

// ── Conditions ───────────────────────────────────────────────────────────────

/// What a phase means for a reader.
pub open spec fn phase_message(phase: OdooInstancePhase) -> Seq<char> {
    match phase {
        OdooInstancePhase::Running => "Instance is running"@,
        OdooInstancePhase::Degraded => "Ready replicas below desired count"@,
        OdooInstancePhase::Stopped => "Instance is stopped (replicas=0)"@,
        OdooInstancePhase::Provisioning => "Creating child resources"@,
        OdooInstancePhase::Uninitialized => "Waiting for database initialization"@,
        OdooInstancePhase::Initializing => "Database initialization in progress"@,
        OdooInstancePhase::InitFailed => "Database initialization failed"@,
        OdooInstancePhase::Starting => "Waiting for pods to become ready"@,
        OdooInstancePhase::Upgrading => "Module upgrade in progress"@,
        OdooInstancePhase::Restoring => "Database restore in progress"@,
        OdooInstancePhase::BackingUp => "Backup in progress"@,
        OdooInstancePhase::MigratingFilestore => "Filestore migration in progress"@,
        OdooInstancePhase::Error => "Reconciliation error"@,
    }
}

/// Whether an instance in a phase is on its way to another one.
pub open spec fn is_progressing(phase: OdooInstancePhase) -> bool {
    ||| phase == OdooInstancePhase::Provisioning
    ||| phase == OdooInstancePhase::Initializing
    ||| phase == OdooInstancePhase::Starting
    ||| phase == OdooInstancePhase::Upgrading
    ||| phase == OdooInstancePhase::Restoring
    ||| phase == OdooInstancePhase::BackingUp
}

/// A truth value as conditions write it.
pub open spec fn truth_text(b: bool) -> Seq<char> {
    if b {
        "True"@
    } else {
        "False"@
    }
}

/// Whether a condition says what it should.
pub open spec fn is_condition(
    c: Condition,
    type_: Seq<char>,
    holds: bool,
    reason: Seq<char>,
    message: Seq<char>,
    generation: i64,
    now: Instant,
) -> bool {
    &&& c.type_@ == type_
    &&& c.status@ == truth_text(holds)
    &&& c.reason@ == reason
    &&& c.message@ == message
    &&& c.observed_generation == Some(generation)
    &&& c.last_transition_time == now
}

/// Whether a list holds the two conditions of a phase.
pub open spec fn are_conditions(
    v: Seq<Condition>,
    phase: OdooInstancePhase,
    generation: i64,
    now: Instant,
) -> bool {
    &&& v.len() == 2
    &&& is_condition(
        v[0],
        "Ready"@,
        phase == OdooInstancePhase::Running,
        phase.text(),
        phase_message(phase),
        generation,
        now,
    )
    &&& is_condition(
        v[1],
        "Progressing"@,
        is_progressing(phase),
        phase.text(),
        phase_message(phase),
        generation,
        now,
    )
}

/// Makes a condition.
pub fn make_condition(
    type_: &str,
    holds: bool,
    reason: &str,
    message: &str,
    generation: i64,
    now: Instant,
) -> (r: Condition)
    ensures
        is_condition(r, type_@, holds, reason@, message@, generation, now),
{
    let status = if holds {
        "True"
    } else {
        "False"
    };
    Condition {
        type_: type_.to_owned(),
        status: status.to_owned(),
        reason: reason.to_owned(),
        message: message.to_owned(),
        observed_generation: Some(generation),
        last_transition_time: now,
    }
}

/// The conditions of a phase at a given time.
pub fn phase_to_conditions_at(phase: &OdooInstancePhase, generation: i64, now: Instant) -> (r: Vec<
    Condition,
>)
    ensures
        are_conditions(r@, *phase, generation, now),
{
    let message = match phase {
        OdooInstancePhase::Running => "Instance is running",
        OdooInstancePhase::Degraded => "Ready replicas below desired count",
        OdooInstancePhase::Stopped => "Instance is stopped (replicas=0)",
        OdooInstancePhase::Provisioning => "Creating child resources",
        OdooInstancePhase::Uninitialized => "Waiting for database initialization",
        OdooInstancePhase::Initializing => "Database initialization in progress",
        OdooInstancePhase::InitFailed => "Database initialization failed",
        OdooInstancePhase::Starting => "Waiting for pods to become ready",
        OdooInstancePhase::Upgrading => "Module upgrade in progress",
        OdooInstancePhase::Restoring => "Database restore in progress",
        OdooInstancePhase::BackingUp => "Backup in progress",
        OdooInstancePhase::MigratingFilestore => "Filestore migration in progress",
        OdooInstancePhase::Error => "Reconciliation error",
    };
    let progressing = matches!(
        phase,
        OdooInstancePhase::Provisioning | OdooInstancePhase::Initializing
            | OdooInstancePhase::Starting | OdooInstancePhase::Upgrading
            | OdooInstancePhase::Restoring | OdooInstancePhase::BackingUp
    );
    let running = *phase == OdooInstancePhase::Running;
    let reason = phase.as_str();
    vec![
        make_condition("Ready", running, reason, message, generation, now),
        make_condition("Progressing", progressing, reason, message, generation, now),
    ]
}

/// The conditions of a phase, as user interfaces read them.
pub fn phase_to_conditions(phase: &OdooInstancePhase, generation: i64) -> (r: Vec<Condition>)
    ensures
        exists|now: Instant| #[trigger] are_conditions(r@, *phase, generation, now),
{
    let now = utc_now();
    phase_to_conditions_at(phase, generation, now)
}

/// No phase is ready and progressing at once.
pub proof fn law_ready_phases_do_not_progress(
    v: Seq<Condition>,
    phase: OdooInstancePhase,
    generation: i64,
    now: Instant,
)
    requires
        are_conditions(v, phase, generation, now),
    ensures
        !(v[0].status@ == "True"@ && v[1].status@ == "True"@),
{
    reveal_strlit("True");
    reveal_strlit("False");
    assert("True"@.len() != "False"@.len());
}

// ── New phases ───────────────────────────────────────────────────────────────

/// The name of a phase, or nothing.
pub open spec fn phase_text(phase: Option<OdooInstancePhase>) -> Seq<char> {
    match phase {
        Some(p) => p.text(),
        None => Seq::empty(),
    }
}

fn phase_string(phase: Option<OdooInstancePhase>) -> (r: String)
    ensures
        r@ == phase_text(phase),
{
    match phase {
        Some(p) => p.as_str().to_owned(),
        None => String::new(),
    }
}

/// What the callback of an instance is told about a new phase.
#[derive(Clone, Debug)]
pub struct PhaseNotice {
    /// Where the notice is sent to.
    pub callback: String,
    pub name: String,
    pub namespace: String,
    pub phase: String,
    pub previous_phase: String,
    pub url: Option<String>,
    pub timestamp: String,
}

/// An event about a new phase and the notice to the callback, if there is one.
#[derive(Clone, Debug)]
pub struct PhaseChange {
    pub event: EventText,
    pub notice: Option<PhaseNotice>,
}

/// Whether a notice says what it should.
pub open spec fn is_notice(
    n: PhaseNotice,
    callback: Seq<char>,
    instance: OdooInstance,
    new_phase: Option<OdooInstancePhase>,
    timestamp: Seq<char>,
) -> bool {
    &&& n.callback@ == callback
    &&& n.name@ == instance.metadata.name_text()
    &&& n.namespace@ == instance.metadata.namespace_text()
    &&& n.phase@ == phase_text(new_phase)
    &&& n.previous_phase@ == phase_text(instance.reported_phase())
    &&& opt_text(n.url) == instance_url(instance)
    &&& n.timestamp@ == timestamp
}

/// Whether a change of the phase is told about as it should.
pub open spec fn is_change(
    c: PhaseChange,
    instance: OdooInstance,
    new_phase: Option<OdooInstancePhase>,
    timestamp: Seq<char>,
) -> bool {
    &&& is_event(
        c.event,
        false,
        "PhaseChanged"@,
        "Reconcile"@,
        "Phase changed from "@ + phase_text(instance.reported_phase()) + " to "@ + phase_text(
            new_phase,
        ),
    )
    &&& match instance.spec.webhook {
        Some(w) => c.notice matches Some(n) && is_notice(
            n,
            w.url@,
            instance,
            new_phase,
            timestamp,
        ),
        None => c.notice is None,
    }
}

/// What is told about a phase at a given time, if it is a new one.
pub fn announce_phase_at(
    instance: &OdooInstance,
    new_phase: Option<OdooInstancePhase>,
    timestamp: &str,
) -> (r: Option<PhaseChange>)
    ensures
        match r {
            Some(c) => new_phase != instance.reported_phase() && is_change(
                c,
                *instance,
                new_phase,
                timestamp@,
            ),
            None => new_phase == instance.reported_phase(),
        },
{
    let previous = instance.status_phase();
    let same = match new_phase {
        Some(n) => match previous {
            Some(p) => n == p,
            None => false,
        },
        None => previous.is_none(),
    };
    if same {
        return None;
    }
    let shown = phase_string(new_phase);
    let before = phase_string(previous);
    let note = concat4("Phase changed from ", before.as_str(), " to ", shown.as_str());
    let notice = match &instance.spec.webhook {
        Some(w) => Some(
            PhaseNotice {
                callback: w.url.clone(),
                name: instance.metadata.name_any(),
                namespace: instance.metadata.namespace_or_default(),
                phase: shown,
                previous_phase: before,
                url: url_of(instance),
                timestamp: timestamp.to_owned(),
            },
        ),
        None => None,
    };
    Some(PhaseChange { event: make_event(false, "PhaseChanged", "Reconcile", note), notice })
}

/// What is told about a phase, if it is a new one.
pub fn announce_phase(instance: &OdooInstance, new_phase: Option<OdooInstancePhase>) -> (r: Option<
    PhaseChange,
>)
    ensures
        match r {
            Some(c) => new_phase != instance.reported_phase() && exists|t: Seq<char>|
                is_clock_text(t) && #[trigger] is_change(c, *instance, new_phase, t),
            None => new_phase == instance.reported_phase(),
        },
{
    let now = utc_now_odoo();
    announce_phase_at(instance, new_phase, now.as_str())
}

// ── Cleanup ──────────────────────────────────────────────────────────────────

/// What happens when an instance is deleted: an event, the deletion of the role,
/// if its cluster is known, and no further look.
#[derive(Clone, Debug)]
pub struct CleanupPlan {
    pub event: EventText,
    pub role: Option<String>,
    pub action: Action,
}

/// Plans the cleanup of an instance.  It never holds the deletion up: whatever
/// comes of the role, the finalizer goes.
pub fn cleanup_instance(instance: &OdooInstance, cluster_known: bool) -> (r: CleanupPlan)
    ensures
        is_event(r.event, false, "Cleanup"@, "Finalize"@, "Deleting postgres role"@),
        opt_text(r.role) == if cluster_known {
            Some(
                username_text(instance.metadata.namespace_text(), instance.metadata.name_text()),
            )
        } else {
            None
        },
        r.action == Action::AwaitChange,
{
    let ns = instance.metadata.namespace_or_default();
    let name = instance.metadata.name_any();
    let role = if cluster_known {
        Some(odoo_username(ns.as_str(), name.as_str()))
    } else {
        None
    };
    CleanupPlan {
        event: make_event(false, "Cleanup", "Finalize", "Deleting postgres role".to_owned()),
        role,
        action: Action::AwaitChange,
    }
}

/// The event about a role that could not be deleted.
pub fn cleanup_failed_event(error: &Error) -> (r: EventText)
    ensures
        is_event(
            r,
            true,
            "CleanupFailed"@,
            "Finalize"@,
            "Failed to delete postgres role: "@ + (error.prefix() + error.detail()),
        ),
{
    let m = error.message();
    make_event(
        true,
        "CleanupFailed",
        "Finalize",
        concat2("Failed to delete postgres role: ", m.as_str()),
    )
}

// ── Clusters ─────────────────────────────────────────────────────────────────

/// The Secret that lists the PostgreSQL clusters.
pub open spec fn clusters_secret_text(configured: Seq<char>) -> Seq<char> {
    if configured.len() == 0 {
        "postgres-clusters"@
    } else {
        configured
    }
}

/// The Secret that lists the PostgreSQL clusters.
pub fn clusters_secret_name(configured: &str) -> (r: String)
    ensures
        r@ == clusters_secret_text(configured@),
{
    if configured.is_empty() {
        "postgres-clusters".to_owned()
    } else {
        configured.to_owned()
    }
}

/// The document that lists the clusters, given what the Secret holds or why it
/// could not be read.
pub fn clusters_document(
    secret_name: &str,
    secret: Result<Vec<(String, Vec<u8>)>, String>,
) -> (r: Result<String, Error>)
    ensures
        match secret {
            Err(e) => r matches Err(x) && x is Config && x.detail() == "reading "@ + secret_name@
                + " secret: "@ + e@,
            Ok(data) => match bytes_under(data@, "clusters.yaml"@) {
                Some(b) => r matches Ok(s) && s@ == lossy_text(b),
                None => r matches Err(x) && x is Config && x.detail()
                    == "postgres-clusters secret missing clusters.yaml key"@,
            },
        },
{
    match secret {
        Err(e) => Err(
            Error::config(concat4("reading ", secret_name, " secret: ", e.as_str()).as_str()),
        ),
        Ok(data) => match find_text(&data, "clusters.yaml") {
            Some(s) => Ok(s),
            None => Err(Error::config("postgres-clusters secret missing clusters.yaml key")),
        },
    }
}

/// Whether the cluster at a place is the first one with a given name.
pub open spec fn is_named_at(
    clusters: Seq<(String, PostgresClusterConfig)>,
    name: Seq<char>,
    i: int,
) -> bool {
    &&& 0 <= i < clusters.len()
    &&& clusters[i].0@ == name
    &&& forall|j: int| 0 <= j < i ==> (#[trigger] clusters[j]).0@ != name
}

/// Whether the cluster at a place is the default one: of those marked as such,
/// the first in the order of their names.
pub open spec fn is_default_at(clusters: Seq<(String, PostgresClusterConfig)>, i: int) -> bool {
    &&& 0 <= i < clusters.len()
    &&& clusters[i].1.default
    &&& forall|j: int|
        0 <= j < clusters.len() && (#[trigger] clusters[j]).1.default ==> j == i || text_less(
            clusters[i].0@,
            clusters[j].0@,
        ) || (clusters[j].0@ == clusters[i].0@ && i < j)
}

/// Whether a name and a configuration are those of the cluster at a place.
pub open spec fn is_cluster_at(
    r: (String, PostgresClusterConfig),
    clusters: Seq<(String, PostgresClusterConfig)>,
    i: int,
) -> bool {
    r.0@ == clusters[i].0@ && r.1 == clusters[i].1
}

fn find_named(clusters: &Vec<(String, PostgresClusterConfig)>, name: &str) -> (r: Option<usize>)
    ensures
        match r {
            Some(i) => is_named_at(clusters@, name@, i as int),
            None => forall|j: int| 0 <= j < clusters@.len() ==> (#[trigger] clusters@[j]).0@ != name@,
        },
{
    let mut i: usize = 0;
    while i < clusters.len()
        invariant
            i <= clusters.len(),
            forall|j: int| 0 <= j < i ==> (#[trigger] clusters@[j]).0@ != name@,
        decreases clusters.len() - i,
    {
        if same_text(clusters[i].0.as_str(), name) {
            return Some(i);
        }
        i += 1;
    }
    None
}

fn find_default(clusters: &Vec<(String, PostgresClusterConfig)>) -> (r: Option<usize>)
    ensures
        match r {
            Some(i) => is_default_at(clusters@, i as int),
            None => forall|j: int| 0 <= j < clusters@.len() ==> !(#[trigger] clusters@[j]).1.default,
        },
{
    let mut best: Option<usize> = None;
    let mut i: usize = 0;
    while i < clusters.len()
        invariant
            i <= clusters.len(),
            match best {
                Some(b) => b < i && is_default_at(clusters@.take(i as int), b as int),
                None => forall|j: int| 0 <= j < i ==> !(#[trigger] clusters@[j]).1.default,
            },
        decreases clusters.len() - i,
    {
        let ghost seen = clusters@.take(i as int);
        let ghost more = clusters@.take(i + 1);
        let ghost old_best = best;
        proof {
            assert forall|j: int| 0 <= j < i implies more[j] == seen[j] by {}
            assert(more[i as int] == clusters@[i as int]);
        }
        if clusters[i].1.default {
            match best {
                None => {
                    best = Some(i);
                    assert(is_default_at(more, i as int));
                },
                Some(b) => {
                    proof {
                        if clusters@[i as int].0@ != clusters@[b as int].0@ {
                            crate::text::lemma_text_less_total(
                                clusters@[i as int].0@,
                                clusters@[b as int].0@,
                            );
                        }
                    }
                    if comes_before(clusters[i].0.as_str(), clusters[b].0.as_str()) {
                        best = Some(i);
                        proof {
                            let x = clusters@[i as int].0@;
                            let y = clusters@[b as int].0@;
                            assert(seen[b as int].0@ == y);
                            assert forall|j: int|
                                0 <= j < more.len() && (#[trigger] more[j]).1.default implies j
                                == i || text_less(x, more[j].0@) || (more[j].0@ == x && i < j) by {
                                if j < i {
                                    assert(more[j] == seen[j]);
                                    if j != b && text_less(y, seen[j].0@) {
                                        crate::text::lemma_text_less_transitive(
                                            x,
                                            y,
                                            seen[j].0@,
                                        );
                                    }
                                }
                            }
                        }
                    } else {
                        proof {
                            assert(seen[b as int] == more[b as int]);
                            assert forall|j: int|
                                0 <= j < more.len() && (#[trigger] more[j]).1.default implies j
                                == b || text_less(more[b as int].0@, more[j].0@) || (more[j].0@
                                == more[b as int].0@ && b < j) by {
                                if j < i {
                                    assert(more[j] == seen[j]);
                                }
                            }
                        }
                    }
                },
            }
        } else {
            proof {
                if let Some(b) = old_best {
                    assert(seen[b as int] == more[b as int]);
                    assert forall|j: int|
                        0 <= j < more.len() && (#[trigger] more[j]).1.default implies j == b
                        || text_less(more[b as int].0@, more[j].0@) || (more[j].0@
                        == more[b as int].0@ && b < j) by {
                        if j < i {
                            assert(more[j] == seen[j]);
                        }
                    }
                }
            }
        }
        i += 1;
    }
    assert(clusters@.take(i as int) =~= clusters@);
    best
}

/// Whether a cluster is the one of a name, or the default one where the name is empty,
/// or the error says that there is none.
pub open spec fn is_choice(
    r: Result<(String, PostgresClusterConfig), Error>,
    name: Seq<char>,
    clusters: Seq<(String, PostgresClusterConfig)>,
    secret_name: Seq<char>,
) -> bool {
    match r {
        Ok(c) => if name.len() > 0 {
            exists|i: int| #[trigger] is_named_at(clusters, name, i) && is_cluster_at(c, clusters, i)
        } else {
            exists|i: int| #[trigger] is_default_at(clusters, i) && is_cluster_at(c, clusters, i)
        },
        Err(e) => e is Config && if name.len() > 0 {
            &&& forall|j: int| 0 <= j < clusters.len() ==> (#[trigger] clusters[j]).0@ != name
            &&& e.detail() == "postgres cluster "@ + debug_text(name) + " not found"@
        } else {
            &&& forall|j: int| 0 <= j < clusters.len() ==> !(#[trigger] clusters[j]).1.default
            &&& e.detail() == "no default postgres cluster configured in "@ + secret_name
                + " secret"@
        },
    }
}

/// The cluster of an instance: the one that its spec names, else the default.
pub fn load_postgres_cluster(
    instance: &OdooInstance,
    clusters: &Vec<(String, PostgresClusterConfig)>,
    secret_name: &str,
) -> (r: Result<(String, PostgresClusterConfig), Error>)
    ensures
        is_choice(r, instance.spec.cluster_text(), clusters@, secret_name@),
{
    let name = instance.spec.cluster_or_empty();
    if !name.as_str().is_empty() {
        return match find_named(clusters, name.as_str()) {
            Some(i) => {
                let c = (name, clusters[i].1.copied());
                assert(is_cluster_at(c, clusters@, i as int));
                Ok(c)
            },
            None => {
                let shown = debug_quoted(name.as_str());
                Err(
                    Error::config(
                        concat3("postgres cluster ", shown.as_str(), " not found").as_str(),
                    ),
                )
            },
        };
    }
    match find_default(clusters) {
        Some(i) => {
            let c = (clusters[i].0.clone(), clusters[i].1.copied());
            assert(is_cluster_at(c, clusters@, i as int));
            Ok(c)
        },
        None => Err(
            Error::config(
                concat3(
                    "no default postgres cluster configured in ",
                    secret_name,
                    " secret",
                ).as_str(),
            ),
        ),
    }
}

/// The cluster of a given name.
pub fn load_postgres_cluster_by_name(
    clusters: &Vec<(String, PostgresClusterConfig)>,
    name: &str,
) -> (r: Result<PostgresClusterConfig, Error>)
    ensures
        match r {
            Ok(c) => exists|i: int| #[trigger] is_named_at(clusters@, name@, i) && c
                == clusters@[i].1,
            Err(e) => {
                &&& e is Config
                &&& e.detail() == "postgres cluster "@ + debug_text(name@) + " not found"@
                &&& forall|j: int|
                    0 <= j < clusters@.len() ==> (#[trigger] clusters@[j]).0@ != name@
            },
        },
{
    match find_named(clusters, name) {
        Some(i) => Ok(clusters[i].1.copied()),
        None => {
            let shown = debug_quoted(name);
            Err(
                Error::config(concat3("postgres cluster ", shown.as_str(), " not found").as_str()),
            )
        },
    }
}

/// At most one cluster is the default one.
pub proof fn law_default_is_unique(
    clusters: Seq<(String, PostgresClusterConfig)>,
    i: int,
    j: int,
)
    requires
        is_default_at(clusters, i),
        is_default_at(clusters, j),
    ensures
        i == j,
{
    if i != j {
        let a = clusters[i].0@;
        let b = clusters[j].0@;
        assert(text_less(a, b) || (b == a && i < j));
        assert(text_less(b, a) || (a == b && j < i));
        if text_less(a, b) && text_less(b, a) {
            crate::text::lemma_text_less_transitive(a, b, a);
        }
        crate::text::lemma_text_less_irreflexive(a);
        crate::text::lemma_text_less_irreflexive(b);
    }
}

// ── What a reconciliation is for ─────────────────────────────────────────────

/// The status says what was observed: the ready replicas, whether the instance runs,
/// where it is reached, how many replicas are desired and whether it has a database.
/// It is written when it does not say so already.
pub proof fn law_the_status_says_what_is_observed(
    instance: &OdooInstance,
    snapshot: &ReconcileSnapshot,
    now: Instant,
    r: Option<StatusUpdate>,
)
    requires
        call_ensures(status_update_at, (instance, snapshot, now), r),
    ensures
        instance.status is None ==> r is Some,
        instance.status matches Some(s) ==> {
            let running = s.phase == Some(OdooInstancePhase::Running);
            let hosts = instance.spec.ingress.hosts@;
            let same_url = if hosts.len() > 0 {
                s.url matches Some(u) && u@ == "https://"@ + hosts[0]@
            } else {
                s.url is None
            };
            r is None <==> s.ready_replicas == snapshot.ready_replicas && s.ready == running
                && same_url && s.target_replicas == Some(instance.spec.replicas)
                && s.db_initialized == snapshot.db_initialized
        },
        r matches Some(u) ==> {
            &&& u.ready_replicas == snapshot.ready_replicas
            &&& u.ready <==> (instance.status matches Some(s) && s.phase == Some(
                OdooInstancePhase::Running,
            ))
            &&& instance.spec.ingress.hosts@.len() > 0 ==> (u.url matches Some(x) && x@
                == "https://"@ + instance.spec.ingress.hosts@[0]@)
            &&& instance.spec.ingress.hosts@.len() == 0 ==> u.url is None
            &&& u.target_replicas == instance.spec.replicas
            &&& u.db_initialized == snapshot.db_initialized
            &&& u.conditions@.len() == 2
        },
{
    if let Some(s) = instance.status {
        if instance.spec.ingress.hosts@.len() > 0 {
            assert(instance_url(*instance) == Some(
                "https://"@ + instance.spec.ingress.hosts@[0]@,
            ));
        }
    }
}

/// The two conditions of a phase: an instance is ready exactly while it runs, and makes
/// progress exactly while it is provisioned, initialised, started, upgraded, restored or
/// backed up.  Both name the phase and the generation that was seen.
pub proof fn law_conditions_tell_the_phase(
    phase: &OdooInstancePhase,
    generation: i64,
    now: Instant,
    r: Vec<Condition>,
)
    requires
        call_ensures(phase_to_conditions_at, (phase, generation, now), r),
    ensures
        r@.len() == 2,
        r@[0].type_@ == "Ready"@,
        r@[0].status@ == if *phase == OdooInstancePhase::Running {
            "True"@
        } else {
            "False"@
        },
        r@[1].type_@ == "Progressing"@,
        r@[1].status@ == match *phase {
            OdooInstancePhase::Provisioning | OdooInstancePhase::Initializing
            | OdooInstancePhase::Starting | OdooInstancePhase::Upgrading
            | OdooInstancePhase::Restoring | OdooInstancePhase::BackingUp => "True"@,
            _ => "False"@,
        },
        forall|i: int|
            0 <= i < 2 ==> {
                &&& (#[trigger] r@[i]).reason@ == phase.text()
                &&& r@[i].observed_generation == Some(generation)
                &&& r@[i].last_transition_time == now
                &&& r@[i].message@ == r@[0].message@
            },
{
}

/// A new phase is told about once: to everybody as an event that names both phases, and
/// to the callback of the instance, if it has one, with its name and its address.
pub proof fn law_new_phases_are_told_about(
    instance: &OdooInstance,
    new_phase: Option<OdooInstancePhase>,
    timestamp: &str,
    r: Option<PhaseChange>,
)
    requires
        call_ensures(announce_phase_at, (instance, new_phase, timestamp), r),
    ensures
        ({
            let before = match instance.status {
                Some(s) => s.phase,
                None => None,
            };
            &&& r is None <==> new_phase == before
            &&& r matches Some(c) ==> {
                &&& !c.event.warning
                &&& c.event.reason@ == "PhaseChanged"@
                &&& new_phase matches Some(n) ==> before matches Some(b) ==> c.event.note@
                    == "Phase changed from "@ + b.text() + " to "@ + n.text()
                &&& c.notice is Some <==> instance.spec.webhook is Some
                &&& c.notice matches Some(n) ==> {
                    &&& n.callback@ == instance.spec.webhook->0.url@
                    &&& n.name@ == instance.metadata.name_text()
                    &&& n.namespace@ == instance.metadata.namespace_text()
                    &&& new_phase matches Some(p) ==> n.phase@ == p.text()
                    &&& before matches Some(p) ==> n.previous_phase@ == p.text()
                    &&& before is None ==> n.previous_phase@.len() == 0
                    &&& instance.spec.ingress.hosts@.len() > 0 ==> (n.url matches Some(u) && u@
                        == "https://"@ + instance.spec.ingress.hosts@[0]@)
                    &&& n.timestamp@ == timestamp@
                }
            }
        }),
{
}

/// A deletion takes the role of the instance away where its cluster is known, and is
/// never held up.
pub proof fn law_deletions_take_the_role_away(
    instance: &OdooInstance,
    cluster_known: bool,
    r: CleanupPlan,
)
    requires
        call_ensures(cleanup_instance, (instance, cluster_known), r),
    ensures
        r.role is Some <==> cluster_known,
        r.role matches Some(u) ==> u@ == "odoo."@ + instance.metadata.namespace_text() + "."@
            + instance.metadata.name_text(),
        r.action == Action::AwaitChange,
        !r.event.warning,
        r.event.reason@ == "Cleanup"@,
{
}

/// The role that a deletion takes away is the one that the Secret of the instance was
/// made for.
pub proof fn law_the_role_of_the_secret_is_deleted(
    instance: &OdooInstance,
    r: CleanupPlan,
    ns: &str,
    name: &str,
    oref: &crate::controller::manifests::OwnerReference,
    password: String,
    secret: crate::controller::manifests::SecretManifest,
)
    requires
        call_ensures(cleanup_instance, (instance, true), r),
        call_ensures(
            crate::controller::child_resources::build_user_secret,
            (ns, name, oref, password),
            secret,
        ),
        ns@ == instance.metadata.namespace_text(),
        name@ == instance.metadata.name_text(),
    ensures
        r.role matches Some(u) && crate::controller::manifests::holds_entry(
            secret@.string_data,
            "username"@,
            u@,
        ),
{
    crate::controller::child_resources::law_user_secrets_hold_the_role(
        ns,
        name,
        oref,
        password,
        secret,
    );
}

/// An error is waited out for half a minute, unless it says that the object is gone.
pub proof fn law_errors_are_waited_out(error: &Error, r: Action)
    requires
        call_ensures(error_policy, (error,), r),
    ensures
        !(*error is Finalizer) ==> r == (Action::RequeueAfter { nanos: 30_000_000_000 }),
        r == Action::AwaitChange <==> (*error matches Error::Finalizer(m) && holds_text(
            m@,
            "ObjectNotFound"@,
        )),
        r == Action::AwaitChange || r == (Action::RequeueAfter { nanos: 30_000_000_000 }),
{
}

/// A text holds another one exactly if it can be cut around it.
pub proof fn law_held_texts_can_be_cut_out(s: Seq<char>, part: Seq<char>)
    ensures
        holds_text(s, part) <==> exists|a: Seq<char>, b: Seq<char>| s == #[trigger] (a + part + b),
{
    if holds_text(s, part) {
        let i = choose|i: int| #[trigger] holds_at(s, part, i);
        let a = s.take(i);
        let b = s.skip(i + part.len());
        assert(s =~= a + part + b);
    }
    if exists|a: Seq<char>, b: Seq<char>| s == #[trigger] (a + part + b) {
        let (a, b) = choose|a: Seq<char>, b: Seq<char>| s == #[trigger] (a + part + b);
        assert(s.subrange(a.len() as int, a.len() as int + part.len()) =~= part);
        assert(holds_at(s, part, a.len() as int));
    }
}

/// The cluster of an instance: the one that the spec names, and no other, or where it
/// names none one that is marked as the default.
pub proof fn law_instances_get_the_cluster_they_name(
    instance: &OdooInstance,
    clusters: &Vec<(String, PostgresClusterConfig)>,
    secret_name: &str,
    r: Result<(String, PostgresClusterConfig), Error>,
)
    requires
        call_ensures(load_postgres_cluster, (instance, clusters, secret_name), r),
    ensures
        ({
            let named = instance.spec.database matches Some(d) && (d.cluster matches Some(c)
                && c@.len() > 0);
            &&& named ==> {
                let name = instance.spec.database->0.cluster->0@;
                &&& r is Ok <==> exists|i: int|
                    0 <= i < clusters@.len() && (#[trigger] clusters@[i]).0@ == name
                &&& r matches Ok((n, pg)) ==> n@ == name && exists|i: int|
                    0 <= i < clusters@.len() && (#[trigger] clusters@[i]).0@ == name
                        && clusters@[i].1 == pg
            }
            &&& !named ==> {
                &&& r is Ok <==> exists|i: int|
                    0 <= i < clusters@.len() && (#[trigger] clusters@[i]).1.default
                &&& r matches Ok((n, pg)) ==> pg.default && exists|i: int|
                    0 <= i < clusters@.len() && (#[trigger] clusters@[i]).0@ == n@
                        && clusters@[i].1 == pg
            }
            &&& r matches Err(e) ==> e is Config
        }),
{
    let name = instance.spec.cluster_text();
    if let Ok(c) = r {
        if name.len() > 0 {
            let i = choose|i: int| #[trigger]
                is_named_at(clusters@, name, i) && is_cluster_at(c, clusters@, i);
            assert(clusters@[i].0@ == name);
            assert(clusters@[i].1 == c.1);
            assert(c.0@ == name);
        } else {
            let i = choose|i: int| #[trigger]
                is_default_at(clusters@, i) && is_cluster_at(c, clusters@, i);
            assert(clusters@[i].1.default);
            assert(clusters@[i].1 == c.1);
            assert(clusters@[i].0@ == c.0@);
        }
    }
}

/// Of several defaults the one with the first name counts.
pub proof fn law_the_first_default_counts(
    instance: &OdooInstance,
    clusters: &Vec<(String, PostgresClusterConfig)>,
    secret_name: &str,
    r: Result<(String, PostgresClusterConfig), Error>,
    j: int,
)
    requires
        call_ensures(load_postgres_cluster, (instance, clusters, secret_name), r),
        instance.spec.database is None,
        r is Ok,
        0 <= j < clusters@.len(),
        clusters@[j].1.default,
    ensures
        r matches Ok((n, _)) && (n@ == clusters@[j].0@ || text_less(n@, clusters@[j].0@)),
{
    let c = r->Ok_0;
    let i = choose|i: int| #[trigger]
        is_default_at(clusters@, i) && is_cluster_at(c, clusters@, i);
    assert(clusters@[j].1.default);
}

/// A reconciliation that nothing stops goes on to its end: children are put in place one
/// after the other, the cluster is observed, the status is written, the state machine
/// runs and the phase is told about.  Defaults that were written end it early.
pub proof fn law_reconciliations_reach_their_end(changed: bool)
    ensures
        ({
            let done = StageOutcome::Done { changed };
            &&& stage_after(ReconcileStage::ApplyDefaults, done) == if changed {
                ReconcileStage::AnnounceDefaults
            } else {
                ReconcileStage::LoadCluster
            }
            &&& stage_after(ReconcileStage::AnnounceDefaults, done) == (ReconcileStage::Finished {
                at_once: true,
            })
            &&& stage_after(ReconcileStage::LoadCluster, done) == (ReconcileStage::Ensure {
                child: Child::ImagePullSecret,
            })
            &&& stage_after(ReconcileStage::Ensure { child: Child::ImagePullSecret }, done) == (
            ReconcileStage::Ensure { child: Child::UserSecret })
            &&& stage_after(ReconcileStage::Ensure { child: Child::UserSecret }, done) == (
            ReconcileStage::Ensure { child: Child::PostgresRole })
            &&& stage_after(ReconcileStage::Ensure { child: Child::PostgresRole }, done) == (
            ReconcileStage::Ensure { child: Child::FilestoreClaim })
            &&& stage_after(ReconcileStage::Ensure { child: Child::FilestoreClaim }, done) == (
            ReconcileStage::Ensure { child: Child::ConfigMap })
            &&& stage_after(ReconcileStage::Ensure { child: Child::ConfigMap }, done) == (
            ReconcileStage::Ensure { child: Child::Service })
            &&& stage_after(ReconcileStage::Ensure { child: Child::Service }, done) == (
            ReconcileStage::Ensure { child: Child::Ingress })
            &&& stage_after(ReconcileStage::Ensure { child: Child::Ingress }, done) == (
            ReconcileStage::Ensure { child: Child::Deployment })
            &&& stage_after(ReconcileStage::Ensure { child: Child::Deployment }, done)
                == ReconcileStage::Gather
            &&& stage_after(ReconcileStage::Gather, done) == ReconcileStage::UpdateStatus
            &&& stage_after(ReconcileStage::UpdateStatus, done) == ReconcileStage::RunStateMachine
            &&& stage_after(ReconcileStage::RunStateMachine, done) == ReconcileStage::ReadPhase
            &&& stage_after(ReconcileStage::ReadPhase, done) == ReconcileStage::AnnouncePhase
            &&& stage_after(ReconcileStage::AnnouncePhase, done) == (ReconcileStage::Finished {
                at_once: false,
            })
        }),
{
}

/// A step that fails ends a reconciliation; only the telling may fail.
pub proof fn law_failed_steps_end_a_reconciliation(stage: ReconcileStage)
    requires
        !(stage is Finished),
        stage != ReconcileStage::AnnounceDefaults,
        stage != ReconcileStage::AnnouncePhase,
    ensures
        stage_after(stage, StageOutcome::Failed) == ReconcileStage::Failed,
{
}

/// The stale finalizer goes, every other one stays, and nothing is written where it is
/// not there.
pub proof fn law_only_the_stale_finalizer_goes(
    instance: &OdooInstance,
    r: Option<Vec<String>>,
    other: Seq<char>,
)
    requires
        call_ensures(strip_stale_finalizer, (instance,), r),
        other != "kopf.zalando.org/KopfFinalizerMarker"@,
    ensures
        r is Some <==> texts(instance.metadata.finalizers@).contains(
            "kopf.zalando.org/KopfFinalizerMarker"@,
        ),
        r matches Some(v) ==> {
            &&& !texts(v@).contains("kopf.zalando.org/KopfFinalizerMarker"@)
            &&& texts(v@).contains(other) == texts(instance.metadata.finalizers@).contains(other)
        },
{
    law_without_takes_all_away(
        texts(instance.metadata.finalizers@),
        "kopf.zalando.org/KopfFinalizerMarker"@,
        other,
    );
}

/// Events point to the resource that they are about.
pub proof fn law_events_point_to_their_resource(kind: &str, meta: &ObjectMeta, r: ObjectReference)
    requires
        call_ensures(kube_object_ref, (kind, meta), r),
    ensures
        r.kind@ == kind@,
        r.name@ == meta.name_text(),
        r.namespace == meta.namespace,
        r.uid == meta.uid,
        r.api_version@ == "bemade.org/v1alpha1"@,
{
}

/// The clusters are listed in the Secret that is configured, or in the standard one,
/// under `clusters.yaml`.
pub proof fn law_clusters_are_listed_in_a_secret(
    configured: &str,
    name: String,
    secret_name: &str,
    secret: Result<Vec<(String, Vec<u8>)>, String>,
    r: Result<String, Error>,
)
    requires
        call_ensures(clusters_secret_name, (configured,), name),
        call_ensures(clusters_document, (secret_name, secret), r),
    ensures
        configured@.len() > 0 ==> name@ == configured@,
        configured@.len() == 0 ==> name@ == "postgres-clusters"@,
        r is Ok <==> (secret matches Ok(d) && bytes_under(d@, "clusters.yaml"@) is Some),
        r matches Ok(doc) ==> doc@ == lossy_text(bytes_under(secret->Ok_0@, "clusters.yaml"@)->0),
        r matches Err(e) ==> e is Config,
{
}

/// The conditions of a phase explain it to a reader.
pub proof fn law_conditions_explain_the_phase(
    phase: &OdooInstancePhase,
    generation: i64,
    now: Instant,
    r: Vec<Condition>,
)
    requires
        call_ensures(phase_to_conditions_at, (phase, generation, now), r),
    ensures
        r@[0].message@ == match *phase {
            OdooInstancePhase::Running => "Instance is running"@,
            OdooInstancePhase::Degraded => "Ready replicas below desired count"@,
            OdooInstancePhase::Stopped => "Instance is stopped (replicas=0)"@,
            OdooInstancePhase::Provisioning => "Creating child resources"@,
            OdooInstancePhase::Uninitialized => "Waiting for database initialization"@,
            OdooInstancePhase::Initializing => "Database initialization in progress"@,
            OdooInstancePhase::InitFailed => "Database initialization failed"@,
            OdooInstancePhase::Starting => "Waiting for pods to become ready"@,
            OdooInstancePhase::Upgrading => "Module upgrade in progress"@,
            OdooInstancePhase::Restoring => "Database restore in progress"@,
            OdooInstancePhase::BackingUp => "Backup in progress"@,
            OdooInstancePhase::MigratingFilestore => "Filestore migration in progress"@,
            OdooInstancePhase::Error => "Reconciliation error"@,
        },
{
}

/// The conditions of a phase are the same at every time, but for the time.
pub proof fn law_conditions_only_write_the_time(
    phase: &OdooInstancePhase,
    generation: i64,
    now: Instant,
    at: Vec<Condition>,
    whenever: Vec<Condition>,
    i: int,
)
    requires
        call_ensures(phase_to_conditions_at, (phase, generation, now), at),
        call_ensures(phase_to_conditions, (phase, generation), whenever),
        0 <= i < 2,
    ensures
        at@.len() == whenever@.len(),
        at@[i].type_@ == whenever@[i].type_@,
        at@[i].status@ == whenever@[i].status@,
        at@[i].reason@ == whenever@[i].reason@,
        at@[i].message@ == whenever@[i].message@,
        at@[i].observed_generation == whenever@[i].observed_generation,
{
}

/// What is written to the status is the same at every time, but for the time.
pub proof fn law_updates_only_write_the_time(
    instance: &OdooInstance,
    snapshot: &ReconcileSnapshot,
    now: Instant,
    at: Option<StatusUpdate>,
    whenever: Option<StatusUpdate>,
)
    requires
        call_ensures(status_update_at, (instance, snapshot, now), at),
        call_ensures(status_update, (instance, snapshot), whenever),
    ensures
        at is Some <==> whenever is Some,
        at matches Some(a) ==> (whenever matches Some(b) && {
            &&& a.ready_replicas == b.ready_replicas
            &&& a.ready == b.ready
            &&& opt_text(a.url) == opt_text(b.url)
            &&& a.target_replicas == b.target_replicas
            &&& a.db_initialized == b.db_initialized
            &&& a.conditions@.len() == b.conditions@.len()
            &&& a.conditions@[0].status@ == b.conditions@[0].status@
            &&& a.conditions@[1].status@ == b.conditions@[1].status@
        }),
{
}

/// What is told about a new phase is the same at every time, but for the time, which is
/// that of the clock.
pub proof fn law_notices_only_write_the_time(
    instance: &OdooInstance,
    new_phase: Option<OdooInstancePhase>,
    timestamp: &str,
    at: Option<PhaseChange>,
    whenever: Option<PhaseChange>,
)
    requires
        call_ensures(announce_phase_at, (instance, new_phase, timestamp), at),
        call_ensures(announce_phase, (instance, new_phase), whenever),
    ensures
        at is Some <==> whenever is Some,
        at matches Some(a) ==> (whenever matches Some(b) && {
            &&& a.event.warning == b.event.warning
            &&& a.event.reason@ == b.event.reason@
            &&& a.event.note@ == b.event.note@
            &&& a.event.action@ == "Reconcile"@ && b.event.action@ == "Reconcile"@
            &&& a.notice is Some <==> b.notice is Some
            &&& a.notice matches Some(m) ==> (b.notice matches Some(n) && m.callback@
                == n.callback@ && m.name@ == n.name@ && m.namespace@ == n.namespace@ && m.phase@
                == n.phase@ && m.previous_phase@ == n.previous_phase@ && opt_text(m.url)
                == opt_text(n.url) && is_clock_text(n.timestamp@))
        }),
{
}

/// The events about defaults and about deletions say what happened, the failure with its
/// cause.
pub proof fn law_events_say_what_happened(
    applied: EventText,
    error: &Error,
    failed: EventText,
    said: String,
    instance: &OdooInstance,
    cleanup: CleanupPlan,
)
    requires
        call_ensures(defaults_event, (), applied),
        call_ensures(cleanup_failed_event, (error,), failed),
        call_ensures(Error::message, (error,), said),
        call_ensures(cleanup_instance, (instance, true), cleanup),
    ensures
        !applied.warning,
        applied.reason@ == "DefaultsApplied"@,
        applied.action@ == "Reconcile"@,
        applied.note@ == "Operator defaults applied to spec"@,
        failed.warning,
        failed.reason@ == "CleanupFailed"@,
        failed.action@ == cleanup.event.action@,
        failed.note@ == "Failed to delete postgres role: "@ + said@,
        cleanup.event.action@ == "Finalize"@,
        cleanup.event.note@ == "Deleting postgres role"@,
{
}

/// A reconciliation goes from stage to stage: it puts the children in place, then observes,
/// writes the status, runs the state machine and tells about the phase.  A failure ends it,
/// but for one in telling.
pub proof fn law_reconciliations_go_on(
    stage: ReconcileStage,
    changed: bool,
    r: ReconcileStage,
    failed: ReconcileStage,
)
    requires
        call_ensures(reconcile_instance, (stage, StageOutcome::Done { changed }), r),
        call_ensures(reconcile_instance, (stage, StageOutcome::Failed), failed),
    ensures
        stage is ApplyDefaults && changed ==> r is AnnounceDefaults,
        stage is ApplyDefaults && !changed ==> r is LoadCluster,
        stage is AnnounceDefaults ==> r == failed && r == (ReconcileStage::Finished {
            at_once: true,
        }),
        stage is LoadCluster ==> r == (ReconcileStage::Ensure { child: Child::ImagePullSecret }),
        stage is Gather ==> r is UpdateStatus,
        stage is UpdateStatus ==> r is RunStateMachine,
        stage is RunStateMachine ==> r is ReadPhase,
        stage is ReadPhase ==> r is AnnouncePhase,
        stage is AnnouncePhase ==> r == failed && r == (ReconcileStage::Finished {
            at_once: false,
        }),
        stage is Finished ==> r == stage && failed == stage,
        stage is Failed ==> r == stage && failed == stage,
        !(stage is AnnounceDefaults || stage is AnnouncePhase || stage is Finished)
            ==> failed is Failed,
        stage matches ReconcileStage::Ensure { child } ==> match child {
            Child::ImagePullSecret => r == (ReconcileStage::Ensure { child: Child::UserSecret }),
            Child::UserSecret => r == (ReconcileStage::Ensure { child: Child::PostgresRole }),
            Child::PostgresRole => r == (ReconcileStage::Ensure { child: Child::FilestoreClaim }),
            Child::FilestoreClaim => r == (ReconcileStage::Ensure { child: Child::ConfigMap }),
            Child::ConfigMap => r == (ReconcileStage::Ensure { child: Child::Service }),
            Child::Service => r == (ReconcileStage::Ensure { child: Child::Ingress }),
            Child::Ingress => r == (ReconcileStage::Ensure { child: Child::Deployment }),
            Child::Deployment => r is Gather,
        },
{
}

/// A cluster is found under its name, and only there.
pub proof fn law_clusters_are_found_by_name(
    clusters: &Vec<(String, PostgresClusterConfig)>,
    name: &str,
    r: Result<PostgresClusterConfig, Error>,
)
    requires
        call_ensures(load_postgres_cluster_by_name, (clusters, name), r),
    ensures
        r matches Ok(c) ==> exists|i: int|
            0 <= i < clusters@.len() && (#[trigger] clusters@[i]).0@ == name@ && clusters@[i].1
                == c,
        r matches Err(e) ==> e is Config && e.detail() == "postgres cluster "@ + debug_text(name@)
            + " not found"@,
{
    if let Ok(c) = r {
        let i = choose|i: int| #[trigger] is_named_at(clusters@, name@, i) && c == clusters@[i].1;
        assert(clusters@[i].0@ == name@);
    }
}

} // verus!
