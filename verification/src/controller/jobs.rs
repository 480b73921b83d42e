//! What the four kinds of job resources have in common.

use vstd::prelude::*;

use crate::crd::meta::{clone_opt, opt_text};
use crate::crd::odoo_backup_job::OdooBackupJob;
use crate::crd::odoo_init_job::OdooInitJob;
use crate::crd::odoo_restore_job::OdooRestoreJob;
use crate::crd::odoo_upgrade_job::OdooUpgradeJob;
use crate::crd::shared::{
    job_name_of, phase_of, status_job_name, status_phase, OdooInstanceRef, Phase,
};
use crate::helpers::Instant;
use crate::text::same_text;

verus! {

/// A kind of job resource.
#[derive(Clone, Copy, Debug, PartialEq, Eq, Structural)]
pub enum JobKind {
    Init,
    Restore,
    Upgrade,
    Backup,
}

/// A job resource: it names an instance and reports a phase and the batch job
/// that does the work.
pub trait JobResource: Sized {
    /// The instance that the job is for.
    spec fn target(&self) -> Seq<char>;

    /// The phase that the job reports.
    spec fn phase(&self) -> Option<Phase>;

    /// The batch job that the job reports.
    spec fn batch_job(&self) -> Option<String>;

    /// The namespace of the instance that the job is for: the one of the
    /// reference, else the one of the job itself.
    spec fn target_namespace(&self) -> Option<Seq<char>>;

    /// The name of the job itself.
    spec fn own_name(&self) -> Seq<char>;

    /// When the job was created.
    spec fn created(&self) -> Option<Instant>;

    /// Whether the job is for the instance of a given name.
    fn is_for(&self, instance_name: &str) -> (r: bool)
        ensures
            r == (self.target() == instance_name@),
    ;

    /// The phase that the job reports.
    fn reported_phase(&self) -> (r: Option<Phase>)
        ensures
            r == self.phase(),
    ;

    /// The batch job that the job reports.
    fn reported_batch_job(&self) -> (r: Option<String>)
        ensures
            r == self.batch_job(),
    ;

    /// The namespace and the name of the instance that the job is for, unless
    /// neither the reference nor the job has a namespace.
    fn instance_key(&self) -> (r: Option<(String, String)>)
        ensures
            match r {
                Some((ns, name)) => self.target_namespace() == Some(ns@) && name@ == self.target(),
                None => self.target_namespace() is None,
            },
    ;

    /// The name of the job itself.
    fn name(&self) -> (r: String)
        ensures
            r@ == self.own_name(),
    ;

    /// When the job was created.
    fn creation(&self) -> (r: Option<Instant>)
        ensures
            r == self.created(),
    ;
}

/// The namespace that a reference points to.
pub open spec fn reference_namespace(
    reference: OdooInstanceRef,
    own: Option<String>,
) -> Option<Seq<char>> {
    match reference.namespace {
        Some(ns) => Some(ns@),
        None => opt_text(own),
    }
}

/// The namespace and the name that a reference points to.
fn key_of(reference: &OdooInstanceRef, own: &Option<String>) -> (r: Option<(String, String)>)
    ensures
        match r {
            Some((ns, name)) => reference_namespace(*reference, *own) == Some(ns@) && name@
                == reference.name@,
            None => reference_namespace(*reference, *own) is None,
        },
{
    let ns = match &reference.namespace {
        Some(ns) => Some(ns.clone()),
        None => clone_opt(own),
    };
    match ns {
        Some(ns) => Some((ns, reference.name.clone())),
        None => None,
    }
}

impl JobResource for OdooInitJob {
    open spec fn target(&self) -> Seq<char> {
        self.spec.odoo_instance_ref.name@
    }

    open spec fn phase(&self) -> Option<Phase> {
        status_phase(self.status)
    }

    open spec fn batch_job(&self) -> Option<String> {
        status_job_name(self.status)
    }

    open spec fn target_namespace(&self) -> Option<Seq<char>> {
        reference_namespace(self.spec.odoo_instance_ref, self.metadata.namespace)
    }

    open spec fn own_name(&self) -> Seq<char> {
        self.metadata.name_text()
    }

    open spec fn created(&self) -> Option<Instant> {
        self.metadata.creation_timestamp
    }

    fn is_for(&self, instance_name: &str) -> (r: bool) {
        same_text(self.spec.odoo_instance_ref.name.as_str(), instance_name)
    }

    fn reported_phase(&self) -> (r: Option<Phase>) {
        phase_of(&self.status)
    }

    fn reported_batch_job(&self) -> (r: Option<String>) {
        job_name_of(&self.status)
    }

    fn instance_key(&self) -> (r: Option<(String, String)>) {
        key_of(&self.spec.odoo_instance_ref, &self.metadata.namespace)
    }

    fn name(&self) -> (r: String) {
        self.metadata.name_any()
    }

    fn creation(&self) -> (r: Option<Instant>) {
        self.metadata.creation_timestamp
    }
}

impl JobResource for OdooRestoreJob {
    open spec fn target(&self) -> Seq<char> {
        self.spec.odoo_instance_ref.name@
    }

    open spec fn phase(&self) -> Option<Phase> {
        status_phase(self.status)
    }

    open spec fn batch_job(&self) -> Option<String> {
        status_job_name(self.status)
    }

    open spec fn target_namespace(&self) -> Option<Seq<char>> {
        reference_namespace(self.spec.odoo_instance_ref, self.metadata.namespace)
    }

    open spec fn own_name(&self) -> Seq<char> {
        self.metadata.name_text()
    }

    open spec fn created(&self) -> Option<Instant> {
        self.metadata.creation_timestamp
    }

    fn is_for(&self, instance_name: &str) -> (r: bool) {
        same_text(self.spec.odoo_instance_ref.name.as_str(), instance_name)
    }

    fn reported_phase(&self) -> (r: Option<Phase>) {
        phase_of(&self.status)
    }

    fn reported_batch_job(&self) -> (r: Option<String>) {
        job_name_of(&self.status)
    }

    fn instance_key(&self) -> (r: Option<(String, String)>) {
        key_of(&self.spec.odoo_instance_ref, &self.metadata.namespace)
    }

    fn name(&self) -> (r: String) {
        self.metadata.name_any()
    }

    fn creation(&self) -> (r: Option<Instant>) {
        self.metadata.creation_timestamp
    }
}

impl JobResource for OdooUpgradeJob {
    open spec fn target(&self) -> Seq<char> {
        self.spec.odoo_instance_ref.name@
    }

    open spec fn phase(&self) -> Option<Phase> {
        status_phase(self.status)
    }

    open spec fn batch_job(&self) -> Option<String> {
        status_job_name(self.status)
    }

    open spec fn target_namespace(&self) -> Option<Seq<char>> {
        reference_namespace(self.spec.odoo_instance_ref, self.metadata.namespace)
    }

    open spec fn own_name(&self) -> Seq<char> {
        self.metadata.name_text()
    }

    open spec fn created(&self) -> Option<Instant> {
        self.metadata.creation_timestamp
    }

    fn is_for(&self, instance_name: &str) -> (r: bool) {
        same_text(self.spec.odoo_instance_ref.name.as_str(), instance_name)
    }

    fn reported_phase(&self) -> (r: Option<Phase>) {
        phase_of(&self.status)
    }

    fn reported_batch_job(&self) -> (r: Option<String>) {
        job_name_of(&self.status)
    }

    fn instance_key(&self) -> (r: Option<(String, String)>) {
        key_of(&self.spec.odoo_instance_ref, &self.metadata.namespace)
    }

    fn name(&self) -> (r: String) {
        self.metadata.name_any()
    }

    fn creation(&self) -> (r: Option<Instant>) {
        self.metadata.creation_timestamp
    }
}

impl JobResource for OdooBackupJob {
    open spec fn target(&self) -> Seq<char> {
        self.spec.odoo_instance_ref.name@
    }

    open spec fn phase(&self) -> Option<Phase> {
        status_phase(self.status)
    }

    open spec fn batch_job(&self) -> Option<String> {
        status_job_name(self.status)
    }

    open spec fn target_namespace(&self) -> Option<Seq<char>> {
        reference_namespace(self.spec.odoo_instance_ref, self.metadata.namespace)
    }

    open spec fn own_name(&self) -> Seq<char> {
        self.metadata.name_text()
    }

    open spec fn created(&self) -> Option<Instant> {
        self.metadata.creation_timestamp
    }

    fn is_for(&self, instance_name: &str) -> (r: bool) {
        same_text(self.spec.odoo_instance_ref.name.as_str(), instance_name)
    }

    fn reported_phase(&self) -> (r: Option<Phase>) {
        phase_of(&self.status)
    }

    fn reported_batch_job(&self) -> (r: Option<String>) {
        job_name_of(&self.status)
    }

    fn instance_key(&self) -> (r: Option<(String, String)>) {
        key_of(&self.spec.odoo_instance_ref, &self.metadata.namespace)
    }

    fn name(&self) -> (r: String) {
        self.metadata.name_any()
    }

    fn creation(&self) -> (r: Option<Instant>) {
        self.metadata.creation_timestamp
    }
}

/// Whether a reported phase is the end of a job.
pub open spec fn is_terminal(phase: Option<Phase>) -> bool {
    phase matches Some(p) && p.is_terminal()
}

/// Whether a job is for an instance and not at its end.
pub open spec fn is_active_for<J: JobResource>(job: J, instance: Seq<char>) -> bool {
    job.target() == instance && !is_terminal(job.phase())
}

/// The position of the first job that is for an instance and not at its end.
pub open spec fn first_active<J: JobResource>(jobs: Seq<J>, instance: Seq<char>) -> Option<int>
    decreases jobs.len(),
{
    if jobs.len() == 0 {
        None
    } else {
        match first_active(jobs.drop_last(), instance) {
            Some(i) => Some(i),
            None => if is_active_for(jobs.last(), instance) {
                Some(jobs.len() - 1)
            } else {
                None
            },
        }
    }
}

/// Whether a job for an instance has completed.
pub open spec fn some_completed<J: JobResource>(jobs: Seq<J>, instance: Seq<char>) -> bool {
    exists|i: int|
        0 <= i < jobs.len() && (#[trigger] jobs[i]).target() == instance && jobs[i].phase() == Some(
            Phase::Completed,
        )
}

/// The active job is the first one: no job before it is active.
pub proof fn law_first_active_is_first<J: JobResource>(jobs: Seq<J>, instance: Seq<char>)
    ensures
        match first_active(jobs, instance) {
            Some(i) => 0 <= i < jobs.len() && is_active_for(jobs[i], instance) && forall|j: int|
                0 <= j < i ==> !is_active_for(#[trigger] jobs[j], instance),
            None => forall|j: int|
                0 <= j < jobs.len() ==> !is_active_for(#[trigger] jobs[j], instance),
        },
    decreases jobs.len(),
{
    if jobs.len() > 0 {
        let t = jobs.drop_last();
        law_first_active_is_first(t, instance);
        assert forall|j: int| 0 <= j < t.len() implies #[trigger] jobs[j] == t[j] by {}
    }
}

/// Finds the first job that is for an instance and not at its end.
pub fn find_active<J: JobResource>(jobs: &Vec<J>, instance_name: &str) -> (r: Option<usize>)
    ensures
        match r {
            Some(i) => first_active(jobs@, instance_name@) == Some(i as int) && i < jobs@.len(),
            None => first_active(jobs@, instance_name@) is None,
        },
{
    let mut found: Option<usize> = None;
    let mut i: usize = 0;
    while i < jobs.len()
        invariant
            i <= jobs.len(),
            match found {
                Some(k) => first_active(jobs@.take(i as int), instance_name@) == Some(k as int) && k
                    < i,
                None => first_active(jobs@.take(i as int), instance_name@) is None,
            },
        decreases jobs.len() - i,
    {
        let job = &jobs[i];
        let terminal = match job.reported_phase() {
            Some(p) => matches!(p, Phase::Completed | Phase::Failed),
            None => false,
        };
        if found.is_none() && job.is_for(instance_name) && !terminal {
            found = Some(i);
        }
        proof {
            let t = jobs@.take(i + 1);
            assert(t.drop_last() == jobs@.take(i as int));
            assert(t.last() == jobs@[i as int]);
        }
        i += 1;
    }
    assert(jobs@.take(i as int) == jobs@);
    found
}

/// Whether a job for an instance has completed.
pub fn any_completed<J: JobResource>(jobs: &Vec<J>, instance_name: &str) -> (r: bool)
    ensures
        r == some_completed(jobs@, instance_name@),
{
    let mut i: usize = 0;
    while i < jobs.len()
        invariant
            i <= jobs.len(),
            forall|j: int|
                0 <= j < i ==> !((#[trigger] jobs@[j]).target() == instance_name@
                    && jobs@[j].phase() == Some(Phase::Completed)),
        decreases jobs.len() - i,
    {
        let job = &jobs[i];
        let completed = match job.reported_phase() {
            Some(p) => matches!(p, Phase::Completed),
            None => false,
        };
        if completed && job.is_for(instance_name) {
            assert(jobs@[i as int].target() == instance_name@);
            return true;
        }
        i += 1;
    }
    false
}

/// The batch job whose outcome decides about the active job of an instance: the
/// one that the active job reports, if there is an active job and it reports one.
pub fn batch_job_to_look_up<J: JobResource>(jobs: &Vec<J>, instance_name: &str) -> (r: Option<
    String,
>)
    ensures
        r == match first_active(jobs@, instance_name@) {
            Some(i) => jobs@[i].batch_job(),
            None => None,
        },
{
    match find_active(jobs, instance_name) {
        Some(i) => jobs[i].reported_batch_job(),
        None => None,
    }
}

/// A job is active for the instance that it names, until it has completed or failed.
pub proof fn law_jobs_are_active_until_they_end(
    init: OdooInitJob,
    restore: OdooRestoreJob,
    upgrade: OdooUpgradeJob,
    backup: OdooBackupJob,
    instance: Seq<char>,
)
    ensures
        is_active_for(init, instance) <==> init.spec.odoo_instance_ref.name@ == instance && !(
        init.status matches Some(s) && (s.phase == Some(Phase::Completed) || s.phase == Some(
            Phase::Failed,
        ))),
        is_active_for(restore, instance) <==> restore.spec.odoo_instance_ref.name@ == instance && !(
        restore.status matches Some(s) && (s.phase == Some(Phase::Completed) || s.phase == Some(
            Phase::Failed,
        ))),
        is_active_for(upgrade, instance) <==> upgrade.spec.odoo_instance_ref.name@ == instance && !(
        upgrade.status matches Some(s) && (s.phase == Some(Phase::Completed) || s.phase == Some(
            Phase::Failed,
        ))),
        is_active_for(backup, instance) <==> backup.spec.odoo_instance_ref.name@ == instance && !(
        backup.status matches Some(s) && (s.phase == Some(Phase::Completed) || s.phase == Some(
            Phase::Failed,
        ))),
{
}

/// The batch job whose outcome counts is the one that the first active job reports.
pub proof fn law_the_active_job_is_looked_up(
    jobs: &Vec<OdooBackupJob>,
    instance_name: &str,
    r: Option<String>,
    i: int,
)
    requires
        call_ensures(batch_job_to_look_up::<OdooBackupJob>, (jobs, instance_name), r),
        0 <= i < jobs@.len(),
        is_active_for(jobs@[i], instance_name@),
        forall|k: int| 0 <= k < i ==> !is_active_for(#[trigger] jobs@[k], instance_name@),
    ensures
        jobs@[i].status matches Some(s) ==> r == s.job_name,
        jobs@[i].status is None ==> r is None,
{
    law_first_active_is_first(jobs@, instance_name@);
}

/// A job belongs to the instance that its reference names: in the namespace of the
/// reference, else in its own.
pub proof fn law_jobs_belong_to_the_instance_they_name(
    job: OdooBackupJob,
    init: OdooInitJob,
    restore: OdooRestoreJob,
    upgrade: OdooUpgradeJob,
)
    ensures
        job.spec.odoo_instance_ref.namespace matches Some(n) ==> job.target_namespace() == Some(n@),
        job.spec.odoo_instance_ref.namespace is None ==> job.target_namespace() == opt_text(
            job.metadata.namespace,
        ),
        init.spec.odoo_instance_ref.namespace matches Some(n) ==> init.target_namespace() == Some(
            n@,
        ),
        restore.spec.odoo_instance_ref.namespace matches Some(n) ==> restore.target_namespace()
            == Some(n@),
        upgrade.spec.odoo_instance_ref.namespace matches Some(n) ==> upgrade.target_namespace()
            == Some(n@),
{
}

/// The active job is found, and it is counted whether any has completed.
pub proof fn law_jobs_are_searched_by_instance(
    jobs: &Vec<OdooBackupJob>,
    instance_name: &str,
    active: Option<usize>,
    completed: bool,
    k: int,
)
    requires
        call_ensures(find_active::<OdooBackupJob>, (jobs, instance_name), active),
        call_ensures(any_completed::<OdooBackupJob>, (jobs, instance_name), completed),
        0 <= k < jobs@.len(),
        jobs@[k].spec.odoo_instance_ref.name@ == instance_name@,
    ensures
        ({
            let phase = match jobs@[k].status {
                Some(s) => s.phase,
                None => None,
            };
            &&& phase != Some(Phase::Completed) && phase != Some(Phase::Failed) ==> (
            active matches Some(i) && i <= k)
            &&& phase == Some(Phase::Completed) ==> completed
        }),
        active matches Some(i) ==> i < jobs@.len()
            && jobs@[i as int].spec.odoo_instance_ref.name@ == instance_name@,
{
    law_first_active_is_first(jobs@, instance_name@);
    assert(jobs@[k].target() == instance_name@);
    if jobs@[k].phase() != Some(Phase::Completed) && jobs@[k].phase() != Some(Phase::Failed) {
        assert(is_active_for(jobs@[k], instance_name@));
    }
}

/// A job belongs to one instance: the one that it names, in the namespace that it names, or
/// else in its own.
pub proof fn law_jobs_point_to_their_instance(
    backup: &OdooBackupJob,
    restore: &OdooRestoreJob,
    b: Option<(String, String)>,
    r: Option<(String, String)>,
)
    requires
        call_ensures(<OdooBackupJob as JobResource>::instance_key, (backup,), b),
        call_ensures(<OdooRestoreJob as JobResource>::instance_key, (restore,), r),
    ensures
        b is None <==> backup.spec.odoo_instance_ref.namespace is None
            && backup.metadata.namespace is None,
        b matches Some((ns, name)) ==> {
            &&& name@ == backup.spec.odoo_instance_ref.name@
            &&& backup.spec.odoo_instance_ref.namespace matches Some(n) ==> ns@ == n@
            &&& backup.spec.odoo_instance_ref.namespace is None ==> (
            backup.metadata.namespace matches Some(n) && ns@ == n@)
        },
        r is None <==> restore.spec.odoo_instance_ref.namespace is None
            && restore.metadata.namespace is None,
        r matches Some((ns, name)) ==> {
            &&& name@ == restore.spec.odoo_instance_ref.name@
            &&& restore.spec.odoo_instance_ref.namespace matches Some(n) ==> ns@ == n@
        },
{
}

} // verus!
