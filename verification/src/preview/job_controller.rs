//! The controllers of the job resources: they start the batch job of a resource
//! and write its outcome to the resource.

use vstd::prelude::*;

use crate::controller::jobs::{is_terminal, JobKind, JobResource};
use crate::controller::states::job_states::{
    is_event, make_event, started_status, EventText, StartedStatus,
};
use crate::controller::state_machine::{
    failure_text, final_message, final_phase, is_positive, Action, JobLookup, JobNotification,
    POLL_NANOS,
};
use crate::crd::meta::{clone_opt, opt_text};
use crate::crd::odoo_upgrade_job::OdooUpgradeJob;
use crate::crd::shared::{Phase, WebhookConfig};
use crate::error::Error;
use crate::helpers::{
    is_clock_text, parse_rfc3339, rfc3339_instant, utc_now, utc_now_odoo, Instant,
};
use crate::text::{concat2, concat4};

verus! {

// ── What is due ──────────────────────────────────────────────────────────────

/// What is due about a job resource.
#[derive(Clone, Debug)]
pub enum JobDecision {
    /// The job has come to its end.
    Done,
    /// The time of the job has not come.
    Wait { nanos: u128 },
    /// Create the batch job.
    Start,
    /// Look at the batch job of this name.
    Sync { job_name: String },
}

/// Whether a decision about a job that may run is right.
pub open spec fn is_decision<J: JobResource>(d: JobDecision, job: J) -> bool {
    if is_terminal(job.phase()) {
        d is Done
    } else {
        match job.batch_job() {
            Some(n) => d == (JobDecision::Sync { job_name: n }),
            None => d is Start,
        }
    }
}

fn at_its_end(phase: Option<Phase>) -> (r: bool)
    ensures
        r == is_terminal(phase),
{
    match phase {
        Some(p) => matches!(p, Phase::Completed | Phase::Failed),
        None => false,
    }
}

/// What is due about an init, backup or restore job.
pub fn reconcile<J: JobResource>(job: &J) -> (r: JobDecision)
    ensures
        is_decision(r, *job),
{
    if at_its_end(job.reported_phase()) {
        return JobDecision::Done;
    }
    match job.reported_batch_job() {
        Some(job_name) => JobDecision::Sync { job_name },
        None => JobDecision::Start,
    }
}

/// A minute, in nanoseconds.
pub const MINUTE_NANOS: u128 = 60_000_000_000;

/// How long to wait for a scheduled time, if it is still to come.
pub open spec fn wait_for(scheduled: Option<Seq<char>>, now: Instant) -> Option<int> {
    match scheduled {
        None => None,
        Some(s) => match rfc3339_instant(s) {
            None => None,
            Some(t) => if t.not_after(now) {
                None
            } else if t.nanos_since(now) < 0 {
                Some(MINUTE_NANOS as int)
            } else {
                Some(t.nanos_since(now))
            },
        },
    }
}

fn waiting_time(scheduled: &Option<String>, now: Instant) -> (r: Option<u128>)
    ensures
        match r {
            Some(n) => wait_for(opt_text(*scheduled), now) == Some(n as int),
            None => wait_for(opt_text(*scheduled), now) is None,
        },
{
    let s = match scheduled {
        Some(s) => s,
        None => return None,
    };
    let t = match parse_rfc3339(s.as_str()) {
        Some(t) => t,
        None => return None,
    };
    if t.is_not_after(&now) {
        return None;
    }
    let wait: i128 = t.since(&now);
    if wait < 0 {
        Some(MINUTE_NANOS)
    } else {
        Some(wait as u128)
    }
}

/// Whether a decision about an upgrade job is right at a given time: it waits for
/// its time.
pub open spec fn is_upgrade_decision(d: JobDecision, job: OdooUpgradeJob, now: Instant) -> bool {
    if is_terminal(job.phase()) {
        d is Done
    } else {
        match wait_for(opt_text(job.spec.scheduled_time), now) {
            Some(n) => d matches JobDecision::Wait { nanos } && nanos == n,
            None => is_decision(d, job),
        }
    }
}

/// What is due about an upgrade job at a given time.
pub fn reconcile_upgrade_at(job: &OdooUpgradeJob, now: Instant) -> (r: JobDecision)
    ensures
        is_upgrade_decision(r, *job, now),
{
    if at_its_end(job.reported_phase()) {
        return JobDecision::Done;
    }
    match waiting_time(&job.spec.scheduled_time, now) {
        Some(nanos) => JobDecision::Wait { nanos },
        None => reconcile(job),
    }
}

/// What is due about an upgrade job.
pub fn reconcile_upgrade(job: &OdooUpgradeJob) -> (r: JobDecision)
    ensures
        exists|now: Instant| #[trigger] is_upgrade_decision(r, *job, now),
{
    let now = utc_now();
    reconcile_upgrade_at(job, now)
}

/// How long an error is waited out.
pub fn error_policy() -> (r: Action)
    ensures
        r == (Action::RequeueAfter { nanos: 30_000_000_000 }),
{
    Action::RequeueAfter { nanos: 30_000_000_000 }
}

// ── Start ────────────────────────────────────────────────────────────────────

/// What is said when the instance of an init job cannot be read.
pub fn instance_error(instance_name: &str, cause: &str) -> (r: Error)
    ensures
        r is Reconcile,
        r.detail() == "OdooInstance "@ + instance_name@ + " not found: "@ + cause@,
{
    Error::reconcile(
        concat4("OdooInstance ", instance_name, " not found: ", cause).as_str(),
    )
}

/// What a kind of job is called at the start of an event.
pub open spec fn kind_title(kind: JobKind) -> Seq<char> {
    match kind {
        JobKind::Init => "Init"@,
        JobKind::Restore => "Restore"@,
        JobKind::Upgrade => "Upgrade"@,
        JobKind::Backup => "Backup"@,
    }
}

/// What a kind of job is called within a sentence.
pub open spec fn kind_word(kind: JobKind) -> Seq<char> {
    match kind {
        JobKind::Init => "init"@,
        JobKind::Restore => "restore"@,
        JobKind::Upgrade => "upgrade"@,
        JobKind::Backup => "backup"@,
    }
}

fn title(kind: JobKind) -> (r: &'static str)
    ensures
        r@ == kind_title(kind),
{
    match kind {
        JobKind::Init => "Init",
        JobKind::Restore => "Restore",
        JobKind::Upgrade => "Upgrade",
        JobKind::Backup => "Backup",
    }
}

fn word(kind: JobKind) -> (r: &'static str)
    ensures
        r@ == kind_word(kind),
{
    match kind {
        JobKind::Init => "init",
        JobKind::Restore => "restore",
        JobKind::Upgrade => "upgrade",
        JobKind::Backup => "backup",
    }
}

/// What follows the creation of a batch job: an event, the status of the resource
/// and the next look.
#[derive(Clone, Debug)]
pub struct StartPlan {
    pub event: EventText,
    pub status: StartedStatus,
    pub action: Action,
}

/// Whether a plan is what follows the creation of a batch job.
pub open spec fn is_start(
    p: StartPlan,
    kind: JobKind,
    job_name: Seq<char>,
    now: Seq<char>,
) -> bool {
    &&& is_event(
        p.event,
        false,
        kind_title(kind) + "Started"@,
        "Reconcile"@,
        "Created "@ + kind_word(kind) + " job "@ + job_name,
    )
    &&& p.status.phase == Phase::Running
    &&& p.status.job_name@ == job_name
    &&& p.status.start_time@ == now
    &&& p.action == (Action::RequeueAfter { nanos: POLL_NANOS })
}

/// What follows the creation of a batch job at a given time.
pub fn start_job_at(kind: JobKind, job_name: &str, now: &str) -> (r: StartPlan)
    ensures
        is_start(r, kind, job_name@, now@),
{
    let reason = concat2(title(kind), "Started");
    let note = concat4("Created ", word(kind), " job ", job_name);
    StartPlan {
        event: make_event(false, reason.as_str(), "Reconcile", note),
        status: started_status(job_name, now),
        action: Action::RequeueAfter { nanos: POLL_NANOS },
    }
}

/// What follows the creation of a batch job.
pub fn start_job(kind: JobKind, job_name: &str) -> (r: StartPlan)
    ensures
        exists|now: Seq<char>|
            is_clock_text(now) && #[trigger] is_start(r, kind, job_name@, now),
{
    let now = utc_now_odoo();
    start_job_at(kind, job_name, now.as_str())
}

// ── Outcome ──────────────────────────────────────────────────────────────────

/// The end of a batch job: an event, what is written to the resource and the
/// notification, if there is one.
#[derive(Clone, Debug)]
pub struct FinishPlan {
    pub event: EventText,
    pub phase: Phase,
    pub message: Option<String>,
    pub completion_time: String,
    pub notification: Option<JobNotification>,
}

/// What comes of a look at a batch job.  The controller awaits the next change in
/// every case but the last one.
#[derive(Clone, Debug)]
pub enum SyncPlan {
    /// The batch job is gone or still at work.
    Nothing,
    /// The batch job has come to its end.
    Finish { plan: FinishPlan },
    /// The batch job could not be looked at.
    Fail,
}

/// What the event about a success says.
pub open spec fn success_note(kind: JobKind) -> Seq<char> {
    match kind {
        JobKind::Init => "Init job completed successfully"@,
        JobKind::Restore => "Restore completed successfully"@,
        JobKind::Upgrade => "Upgrade completed successfully"@,
        JobKind::Backup => "Backup completed successfully"@,
    }
}

fn success_text(kind: JobKind) -> (r: &'static str)
    ensures
        r@ == success_note(kind),
{
    match kind {
        JobKind::Init => "Init job completed successfully",
        JobKind::Restore => "Restore completed successfully",
        JobKind::Upgrade => "Upgrade completed successfully",
        JobKind::Backup => "Backup completed successfully",
    }
}

/// Whether a plan ends a job as it should.
pub open spec fn is_finish(
    p: FinishPlan,
    kind: JobKind,
    success: bool,
    webhook: Option<WebhookConfig>,
    reported: Option<String>,
    now: Seq<char>,
) -> bool {
    &&& is_event(
        p.event,
        !success,
        kind_title(kind) + if success {
            "Completed"@
        } else {
            "Failed"@
        },
        "Reconcile"@,
        if success {
            success_note(kind)
        } else {
            kind_title(kind) + " job failed"@
        },
    )
    &&& p.phase == final_phase(success)
    &&& opt_text(p.message) == final_message(kind, success)
    &&& p.completion_time@ == now
    &&& match webhook {
        None => p.notification is None,
        Some(w) => {
            &&& p.notification matches Some(n)
            &&& n.webhook == w
            &&& n.phase == final_phase(success)
            &&& n.job_name == reported
            &&& opt_text(n.message) == final_message(kind, success)
            &&& n.completion_time@ == now
        },
    }
}

/// Whether a plan is what comes of a look at a batch job.
pub open spec fn is_sync(
    p: SyncPlan,
    kind: JobKind,
    lookup: JobLookup,
    webhook: Option<WebhookConfig>,
    reported: Option<String>,
    now: Seq<char>,
) -> bool {
    match lookup {
        JobLookup::NotFound => p is Nothing,
        JobLookup::Unavailable => p is Fail,
        JobLookup::Found { succeeded, failed, .. } => if is_positive(succeeded) {
            p matches SyncPlan::Finish { plan } && is_finish(
                plan,
                kind,
                true,
                webhook,
                reported,
                now,
            )
        } else if is_positive(failed) {
            p matches SyncPlan::Finish { plan } && is_finish(
                plan,
                kind,
                false,
                webhook,
                reported,
                now,
            )
        } else {
            p is Nothing
        },
    }
}

fn failure_message(kind: JobKind) -> (r: String)
    ensures
        r@ == failure_text(kind),
{
    match kind {
        JobKind::Init => "init job failed".to_owned(),
        JobKind::Restore => "restore job failed".to_owned(),
        JobKind::Upgrade => "upgrade job failed".to_owned(),
        JobKind::Backup => "backup job failed".to_owned(),
    }
}

fn finish(
    kind: JobKind,
    success: bool,
    webhook: &Option<WebhookConfig>,
    reported: &Option<String>,
    now: &str,
) -> (r: FinishPlan)
    ensures
        is_finish(r, kind, success, *webhook, *reported, now@),
{
    let event = if success {
        let reason = concat2(title(kind), "Completed");
        make_event(false, reason.as_str(), "Reconcile", success_text(kind).to_owned())
    } else {
        let reason = concat2(title(kind), "Failed");
        make_event(true, reason.as_str(), "Reconcile", concat2(title(kind), " job failed"))
    };
    let phase = if success {
        Phase::Completed
    } else {
        Phase::Failed
    };
    let message = if success {
        None
    } else {
        Some(failure_message(kind))
    };
    let notification = match webhook {
        Some(w) => Some(
            JobNotification {
                webhook: w.copied(),
                phase,
                job_name: clone_opt(reported),
                message: clone_opt(&message),
                completion_time: now.to_owned(),
            },
        ),
        None => None,
    };
    FinishPlan { event, phase, message, completion_time: now.to_owned(), notification }
}

fn positive(count: Option<i32>) -> (r: bool)
    ensures
        r == is_positive(count),
{
    match count {
        Some(n) => n > 0,
        None => false,
    }
}

/// What comes of a look at a batch job at a given time.
pub fn sync_job_status_at(
    kind: JobKind,
    lookup: JobLookup,
    webhook: &Option<WebhookConfig>,
    reported: &Option<String>,
    now: &str,
) -> (r: SyncPlan)
    ensures
        is_sync(r, kind, lookup, *webhook, *reported, now@),
{
    match lookup {
        JobLookup::NotFound => SyncPlan::Nothing,
        JobLookup::Unavailable => SyncPlan::Fail,
        JobLookup::Found { succeeded, failed, .. } => if positive(succeeded) {
            SyncPlan::Finish { plan: finish(kind, true, webhook, reported, now) }
        } else if positive(failed) {
            SyncPlan::Finish { plan: finish(kind, false, webhook, reported, now) }
        } else {
            SyncPlan::Nothing
        },
    }
}

/// What comes of a look at a batch job.
pub fn sync_job_status(
    kind: JobKind,
    lookup: JobLookup,
    webhook: &Option<WebhookConfig>,
    reported: &Option<String>,
) -> (r: SyncPlan)
    ensures
        exists|now: Seq<char>|
            is_clock_text(now) && #[trigger] is_sync(r, kind, lookup, *webhook, *reported, now),
{
    let now = utc_now_odoo();
    sync_job_status_at(kind, lookup, webhook, reported, now.as_str())
}

/// A job that has come to its end stays there: nothing is started again.
pub proof fn law_finished_jobs_stay_finished<J: JobResource>(d: JobDecision, job: J)
    requires
        is_terminal(job.phase()),
        is_decision(d, job),
    ensures
        !(d is Start),
        !(d is Sync),
{
}

/// A batch job is created at most once: a resource that reports one never starts
/// another.
pub proof fn law_batch_jobs_are_created_once<J: JobResource>(d: JobDecision, job: J)
    requires
        job.batch_job() is Some,
        is_decision(d, job),
    ensures
        !(d is Start),
{
}

/// No upgrade starts before its time.
pub proof fn law_upgrades_wait_for_their_time(d: JobDecision, job: OdooUpgradeJob, now: Instant)
    requires
        is_upgrade_decision(d, job, now),
        job.spec.scheduled_time matches Some(s) && (rfc3339_instant(s@) matches Some(t)
            && !t.not_after(now)),
    ensures
        !(d is Start),
{
}

/// A job is started, then looked at under the name of its batch job, and left alone once
/// it has completed or failed.
pub proof fn law_jobs_go_through_their_stages<J: JobResource>(job: &J, r: JobDecision)
    requires
        call_ensures(reconcile::<J>, (job,), r),
    ensures
        ({
            let ended = job.phase() == Some(Phase::Completed) || job.phase() == Some(Phase::Failed);
            &&& r is Done <==> ended
            &&& r is Start <==> !ended && job.batch_job() is None
            &&& r is Sync <==> !ended && job.batch_job() is Some
            &&& r matches JobDecision::Sync { job_name } ==> Some(job_name) == job.batch_job()
        }),
{
}

/// An upgrade job waits until the time that is written in it, and from then on goes the
/// way of every job.
pub proof fn law_upgrades_start_on_time(job: &OdooUpgradeJob, now: Instant, r: JobDecision)
    requires
        call_ensures(reconcile_upgrade_at, (job, now), r),
        now.nanos < 1_000_000_000,
    ensures
        ({
            let ended = job.phase() == Some(Phase::Completed) || job.phase() == Some(Phase::Failed);
            let early = job.spec.scheduled_time matches Some(s) && (rfc3339_instant(s@) matches Some(
                t,
            ) && (t.secs > now.secs || (t.secs == now.secs && t.nanos > now.nanos)));
            &&& r is Done <==> ended
            &&& r is Wait <==> !ended && early
            &&& r is Start <==> !ended && !early && job.batch_job() is None
            &&& r is Sync <==> !ended && !early && job.batch_job() is Some
            &&& r matches JobDecision::Sync { job_name } ==> Some(job_name) == job.batch_job()
            &&& r matches JobDecision::Wait { nanos } ==> {
                let t = rfc3339_instant(job.spec.scheduled_time->0@)->0;
                t.nanos < 1_000_000_000 ==> nanos == (t.secs - now.secs) * 1_000_000_000 + t.nanos
                    - now.nanos
            }
        }),
{
}

/// A batch job that was created is told about and written to the resource: that it runs,
/// its name and the time.  It is looked at again soon.
pub proof fn law_started_jobs_are_written_down(
    kind: JobKind,
    job_name: &str,
    now: &str,
    r: StartPlan,
)
    requires
        call_ensures(start_job_at, (kind, job_name, now), r),
    ensures
        r.status.phase == Phase::Running,
        r.status.job_name@ == job_name@,
        r.status.start_time@ == now@,
        r.action == (Action::RequeueAfter { nanos: 10_000_000_000 }),
        !r.event.warning,
        r.event.action@ == "Reconcile"@,
        r.event.reason@ == match kind {
            JobKind::Init => "Init"@,
            JobKind::Restore => "Restore"@,
            JobKind::Upgrade => "Upgrade"@,
            JobKind::Backup => "Backup"@,
        } + "Started"@,
        r.event.note@ == "Created "@ + match kind {
            JobKind::Init => "init"@,
            JobKind::Restore => "restore"@,
            JobKind::Upgrade => "upgrade"@,
            JobKind::Backup => "backup"@,
        } + " job "@ + job_name@,
{
}

/// What a look at a batch job comes to goes by its counts: a success completes the
/// resource, a failure fails it, and anything else changes nothing.  The end is told
/// about, and sent to the callback of the job, if it has one.
pub proof fn law_ended_jobs_say_how_they_went(
    kind: JobKind,
    lookup: JobLookup,
    webhook: &Option<WebhookConfig>,
    reported: &Option<String>,
    now: &str,
    r: SyncPlan,
)
    requires
        call_ensures(sync_job_status_at, (kind, lookup, webhook, reported, now), r),
    ensures
        ({
            let won = lookup matches JobLookup::Found { succeeded: Some(n), .. } && n > 0;
            let lost = !won && (lookup matches JobLookup::Found { failed: Some(n), .. } && n > 0);
            &&& r is Fail <==> lookup is Unavailable
            &&& r is Finish <==> won || lost
            &&& r matches SyncPlan::Finish { plan } ==> {
                &&& plan.phase == if won {
                    Phase::Completed
                } else {
                    Phase::Failed
                }
                &&& plan.completion_time@ == now@
                &&& plan.event.warning == lost
                &&& plan.event.action@ == "Reconcile"@
                &&& plan.message is Some <==> lost
                &&& lost ==> plan.message->0@ == match kind {
                    JobKind::Init => "init job failed"@,
                    JobKind::Restore => "restore job failed"@,
                    JobKind::Upgrade => "upgrade job failed"@,
                    JobKind::Backup => "backup job failed"@,
                }
                &&& plan.event.reason@ == match kind {
                    JobKind::Init => "Init"@,
                    JobKind::Restore => "Restore"@,
                    JobKind::Upgrade => "Upgrade"@,
                    JobKind::Backup => "Backup"@,
                } + if won {
                    "Completed"@
                } else {
                    "Failed"@
                }
                &&& lost ==> plan.event.note@ == match kind {
                    JobKind::Init => "Init"@,
                    JobKind::Restore => "Restore"@,
                    JobKind::Upgrade => "Upgrade"@,
                    JobKind::Backup => "Backup"@,
                } + " job failed"@
                &&& won ==> plan.event.note@ == match kind {
                    JobKind::Init => "Init job completed successfully"@,
                    JobKind::Restore => "Restore completed successfully"@,
                    JobKind::Upgrade => "Upgrade completed successfully"@,
                    JobKind::Backup => "Backup completed successfully"@,
                }
                &&& plan.notification is Some <==> *webhook is Some
                &&& plan.notification matches Some(n) ==> {
                    &&& Some(n.webhook) == *webhook
                    &&& n.phase == plan.phase
                    &&& n.job_name == *reported
                    &&& opt_text(n.message) == opt_text(plan.message)
                    &&& n.completion_time@ == now@
                }
            }
        }),
{
}

/// An upgrade job without a time goes the way of every job, and an ended one stays ended.
pub proof fn law_upgrades_without_a_time_do_not_wait(
    job: &OdooUpgradeJob,
    whenever: JobDecision,
    r: JobDecision,
)
    requires
        call_ensures(reconcile_upgrade, (job,), whenever),
        call_ensures(reconcile::<OdooUpgradeJob>, (job,), r),
    ensures
        job.spec.scheduled_time is None ==> whenever == r || (whenever is Done && r is Done) || (
        whenever is Start && r is Start),
        r is Done <==> whenever is Done,
        whenever is Start ==> r is Start,
        whenever is Sync ==> whenever == r,
{
    let now = choose|now: Instant| #[trigger] is_upgrade_decision(whenever, *job, now);
    assert(is_upgrade_decision(whenever, *job, now));
}

/// What follows a creation, and what comes of a look, is the same at every time, but for the
/// time, which is that of the clock.
pub proof fn law_plans_only_write_the_time(
    kind: JobKind,
    job_name: &str,
    now: &str,
    at: StartPlan,
    whenever: StartPlan,
    lookup: JobLookup,
    webhook: &Option<WebhookConfig>,
    reported: &Option<String>,
    sync_at: SyncPlan,
    sync: SyncPlan,
)
    requires
        call_ensures(start_job_at, (kind, job_name, now), at),
        call_ensures(start_job, (kind, job_name), whenever),
        call_ensures(sync_job_status_at, (kind, lookup, webhook, reported, now), sync_at),
        call_ensures(sync_job_status, (kind, lookup, webhook, reported), sync),
    ensures
        at.event.reason@ == whenever.event.reason@,
        at.event.note@ == whenever.event.note@,
        at.event.warning == whenever.event.warning,
        at.status.phase == whenever.status.phase,
        at.status.job_name@ == whenever.status.job_name@,
        is_clock_text(whenever.status.start_time@),
        at.action == whenever.action,
        sync_at is Nothing <==> sync is Nothing,
        sync_at is Fail <==> sync is Fail,
        sync_at matches SyncPlan::Finish { plan: a } ==> (sync matches SyncPlan::Finish { plan: b }
            && a.phase == b.phase && opt_text(a.message) == opt_text(b.message) && a.event.reason@
            == b.event.reason@ && a.event.note@ == b.event.note@ && is_clock_text(
            b.completion_time@,
        ) && (a.notification is Some <==> b.notification is Some)),
{
    let t = choose|t: Seq<char>|
        is_clock_text(t) && #[trigger] is_start(whenever, kind, job_name@, t);
    let u = choose|u: Seq<char>|
        is_clock_text(u) && #[trigger] is_sync(sync, kind, lookup, *webhook, *reported, u);
    assert(is_start(whenever, kind, job_name@, t));
    assert(is_sync(sync, kind, lookup, *webhook, *reported, u));
}

/// An instance that cannot be read is named with the cause.
pub proof fn law_unreadable_instances_are_named(instance_name: &str, cause: &str, r: Error)
    requires
        call_ensures(instance_error, (instance_name, cause), r),
    ensures
        r is Reconcile,
        r.detail() == "OdooInstance "@ + instance_name@ + " not found: "@ + cause@,
{
}

} // verus!
