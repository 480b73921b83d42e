//! Bounding the history of finished job resources.
//!
//! Of the jobs of an instance that have come to their end the newest ones are
//! kept and the rest is deleted.  A job that has not come to its end is never
//! touched.

use vstd::prelude::*;

use crate::controller::jobs::{is_terminal, JobResource};
use crate::crd::meta::opt_text;
use crate::crd::odoo_backup_job::OdooBackupJob;
use crate::crd::odoo_instance::OdooInstance;
use crate::crd::shared::Phase;
use crate::helpers::Instant;
use crate::text::texts;

verus! {

// ── Order ────────────────────────────────────────────────────────────────────

/// Whether one creation time is later than another; a missing one counts as the
/// oldest.
pub open spec fn newer(a: Option<Instant>, b: Option<Instant>) -> bool {
    match a {
        Some(x) => match b {
            Some(y) => !x.not_after(y),
            None => true,
        },
        None => false,
    }
}

fn is_newer(a: Option<Instant>, b: Option<Instant>) -> (r: bool)
    ensures
        r == newer(a, b),
{
    match a {
        Some(x) => match b {
            Some(y) => !x.is_not_after(&y),
            None => true,
        },
        None => false,
    }
}

/// Whether a job is for an instance and has come to its end.
pub open spec fn is_finished_for<J: JobResource>(job: J, instance: Seq<char>) -> bool {
    job.target() == instance && is_terminal(job.phase())
}

/// Whether one job comes before another one in the history: the newer one, and of
/// equally new ones the one that is listed first.
pub open spec fn precedes<J: JobResource>(jobs: Seq<J>, i: int, j: int) -> bool {
    newer(jobs[i].created(), jobs[j].created()) || (!newer(jobs[j].created(), jobs[i].created())
        && i < j)
}

/// Whether a list of places is the history of an instance: every job that has
/// come to its end, once, the newest first.
pub open spec fn is_history<J: JobResource>(
    jobs: Seq<J>,
    instance: Seq<char>,
    places: Seq<int>,
) -> bool {
    &&& forall|k: int|
        0 <= k < places.len() ==> 0 <= #[trigger] places[k] < jobs.len() && is_finished_for(
            jobs[places[k]],
            instance,
        )
    &&& forall|i: int|
        0 <= i < jobs.len() && is_finished_for(#[trigger] jobs[i], instance) ==> places.contains(
            i,
        )
    &&& forall|k: int, l: int|
        0 <= k < l < places.len() ==> precedes(jobs, #[trigger] places[k], #[trigger] places[l])
}

/// The places of the jobs that are deleted: all but the first `limit` of the
/// history.
pub open spec fn pruned(places: Seq<int>, limit: nat) -> Seq<int> {
    if places.len() <= limit {
        Seq::empty()
    } else {
        places.skip(limit as int)
    }
}

/// The names of the jobs at some places.
pub open spec fn names_at<J: JobResource>(jobs: Seq<J>, places: Seq<int>) -> Seq<Seq<char>> {
    places.map_values(|i: int| jobs[i].own_name())
}

/// The order of the history does not run in circles.
proof fn lemma_precedes_transitive<J: JobResource>(jobs: Seq<J>, i: int, j: int, k: int)
    requires
        precedes(jobs, i, j),
        precedes(jobs, j, k),
    ensures
        precedes(jobs, i, k),
{
}

// ── Pruning ──────────────────────────────────────────────────────────────────

/// The places of a list of indices.
spec fn as_places(v: Seq<usize>) -> Seq<int> {
    v.map_values(|i: usize| i as int)
}

/// The history of an instance.
fn history<J: JobResource>(jobs: &Vec<J>, instance_name: &str) -> (r: Vec<usize>)
    ensures
        is_history(jobs@, instance_name@, as_places(r@)),
{
    let mut out: Vec<usize> = Vec::new();
    let mut i: usize = 0;
    while i < jobs.len()
        invariant
            i <= jobs.len(),
            forall|k: int|
                0 <= k < out.len() ==> #[trigger] out@[k] < i && is_finished_for(
                    jobs@[out@[k] as int],
                    instance_name@,
                ),
            forall|j: int|
                0 <= j < i && is_finished_for(#[trigger] jobs@[j], instance_name@) ==> exists|k: int|
                    0 <= k < out.len() && #[trigger] out@[k] == j,
            forall|k: int, l: int|
                0 <= k < l < out.len() ==> precedes(
                    jobs@,
                    #[trigger] out@[k] as int,
                    #[trigger] out@[l] as int,
                ),
        decreases jobs.len() - i,
    {
        let job = &jobs[i];
        let terminal = match job.reported_phase() {
            Some(p) => matches!(p, Phase::Completed | Phase::Failed),
            None => false,
        };
        if terminal && job.is_for(instance_name) {
            let ghost before = out@;
            let mut p: usize = 0;
            while p < out.len() && !is_newer(job.creation(), jobs[out[p]].creation())
                invariant
                    p <= out.len(),
                    i < jobs.len(),
                    *job == jobs@[i as int],
                    forall|k: int| 0 <= k < out.len() ==> #[trigger] out@[k] < i,
                    forall|k: int|
                        0 <= k < p ==> !newer(
                            jobs@[i as int].created(),
                            jobs@[#[trigger] out@[k] as int].created(),
                        ),
                decreases out.len() - p,
            {
                p += 1;
            }
            out.insert(p, i);
            proof {
                assert(out@ == before.insert(p as int, i));
                assert forall|k: int| 0 <= k < out.len() implies #[trigger] out@[k] < i + 1
                    && is_finished_for(jobs@[out@[k] as int], instance_name@) by {
                    if k < p {
                        assert(out@[k] == before[k]);
                    } else if k > p {
                        assert(out@[k] == before[k - 1]);
                    }
                }
                assert forall|j: int|
                    0 <= j < i + 1 && is_finished_for(
                        #[trigger] jobs@[j],
                        instance_name@,
                    ) implies exists|k: int| 0 <= k < out.len() && #[trigger] out@[k] == j by {
                    if j == i {
                        assert(out@[p as int] == j);
                    } else {
                        let k = choose|k: int| 0 <= k < before.len() && #[trigger] before[k] == j;
                        if k < p {
                            assert(out@[k] == j);
                        } else {
                            assert(out@[k + 1] == j);
                        }
                    }
                }
                assert forall|k: int, l: int| 0 <= k < l < out.len() implies precedes(
                    jobs@,
                    #[trigger] out@[k] as int,
                    #[trigger] out@[l] as int,
                ) by {
                    let bk = if k < p {
                        before[k]
                    } else {
                        before[k - 1]
                    };
                    let bl = if l < p {
                        before[l]
                    } else {
                        before[l - 1]
                    };
                    if k == p {
                        assert(out@[l] == bl);
                        if l == p + 1 {
                            assert(precedes(jobs@, i as int, before[p as int] as int));
                        } else {
                            assert(precedes(
                                jobs@,
                                before[p as int] as int,
                                before[l - 1] as int,
                            ));
                            lemma_precedes_transitive(
                                jobs@,
                                i as int,
                                before[p as int] as int,
                                before[l - 1] as int,
                            );
                        }
                    } else if l == p {
                        assert(out@[k] == bk);
                        assert(before[k] < i);
                    } else {
                        assert(out@[k] == bk && out@[l] == bl);
                    }
                }
            }
        }
        i += 1;
    }
    proof {
        let places = as_places(out@);
        assert forall|k: int| 0 <= k < places.len() implies 0 <= #[trigger] places[k] < jobs@.len()
            && is_finished_for(jobs@[places[k]], instance_name@) by {
            assert(places[k] == out@[k]);
        }
        assert forall|j: int|
            0 <= j < jobs@.len() && is_finished_for(
                #[trigger] jobs@[j],
                instance_name@,
            ) implies places.contains(j) by {
            let k = choose|k: int| 0 <= k < out.len() && #[trigger] out@[k] == j;
            assert(places[k] == j);
        }
        assert forall|k: int, l: int| 0 <= k < l < places.len() implies precedes(
            jobs@,
            #[trigger] places[k],
            #[trigger] places[l],
        ) by {
            assert(places[k] == out@[k] && places[l] == out@[l]);
        }
    }
    out
}

/// The names of the jobs of an instance to delete: the finished ones beyond the
/// newest `limit`, the newest of them first.
pub fn prune<J: JobResource>(jobs: &Vec<J>, instance_name: &str, limit: usize) -> (r: Vec<String>)
    ensures
        exists|places: Seq<int>| #[trigger]
            is_history(jobs@, instance_name@, places) && texts(r@) == names_at(
                jobs@,
                pruned(places, limit as nat),
            ),
{
    let all = history(jobs, instance_name);
    let ghost places = as_places(all@);
    let mut out: Vec<String> = Vec::new();
    if all.len() <= limit {
        assert(texts(out@) =~= names_at(jobs@, pruned(places, limit as nat)));
        return out;
    }
    let mut k: usize = limit;
    let ghost gone = pruned(places, limit as nat);
    assert(texts(out@) =~= names_at(jobs@, gone.take(0)));
    while k < all.len()
        invariant
            limit <= k <= all.len(),
            places == as_places(all@),
            limit < all.len(),
            gone == pruned(places, limit as nat),
            is_history(jobs@, instance_name@, places),
            texts(out@) == names_at(jobs@, gone.take(k - limit)),
        decreases all.len() - k,
    {
        let ghost before = out@;
        assert(places[k as int] == all@[k as int]);
        out.push(jobs[all[k]].name());
        proof {
            assert(gone[k - limit] == places[k as int]);
            assert(gone.take(k + 1 - limit) =~= gone.take(k - limit).push(places[k as int]));
            let name = jobs@[places[k as int]].own_name();
            assert(texts(out@) =~= texts(before).push(name));
            assert(names_at(jobs@, gone.take(k + 1 - limit)) =~= names_at(
                jobs@,
                gone.take(k - limit),
            ).push(name));
        }
        k += 1;
    }
    assert(gone.take(k - limit) =~= gone);
    out
}

/// How the deletion of a job went.
#[derive(Clone, Copy, Debug, PartialEq, Eq, Structural)]
pub enum DeletionOutcome {
    /// The job is deleted.
    Deleted,
    /// The job was gone already.
    Gone,
    /// The job could not be deleted.
    Failed,
}

/// How many jobs were deleted.
pub open spec fn deleted_count(outcomes: Seq<DeletionOutcome>) -> nat
    decreases outcomes.len(),
{
    if outcomes.len() == 0 {
        0
    } else {
        deleted_count(outcomes.drop_last()) + if outcomes.last() == DeletionOutcome::Deleted {
            1nat
        } else {
            0nat
        }
    }
}

/// The job to delete after a number of deletions: the next in order, whatever came of
/// those before it.
pub open spec fn deletion_after(
    names: Seq<Seq<char>>,
    outcomes: Seq<DeletionOutcome>,
) -> Option<Seq<char>> {
    if outcomes.len() < names.len() {
        Some(names[outcomes.len() as int])
    } else {
        None
    }
}

/// The job to delete next, given how the deletions before it went.
pub fn next_deletion(names: &Vec<String>, outcomes: &Vec<DeletionOutcome>) -> (r: Option<String>)
    ensures
        opt_text(r) == deletion_after(texts(names@), outcomes@),
{
    if outcomes.len() < names.len() {
        Some(names[outcomes.len()].clone())
    } else {
        None
    }
}

/// Counts the jobs that were deleted: one that was gone already or could not be
/// deleted does not count.
pub fn count_deletions(outcomes: &Vec<DeletionOutcome>) -> (r: usize)
    ensures
        r == deleted_count(outcomes@),
        r <= outcomes@.len(),
{
    let mut count: usize = 0;
    let mut i: usize = 0;
    while i < outcomes.len()
        invariant
            i <= outcomes.len(),
            count <= i,
            count == deleted_count(outcomes@.take(i as int)),
        decreases outcomes.len() - i,
    {
        assert(outcomes@.take(i + 1).drop_last() =~= outcomes@.take(i as int));
        if outcomes[i] == DeletionOutcome::Deleted {
            count += 1;
        }
        i += 1;
    }
    assert(outcomes@.take(i as int) =~= outcomes@);
    count
}

/// Whether the history of an instance is bounded at all, and in which namespace:
/// a limit of zero disables it, and so does a missing namespace.
pub fn garbage_collect_job_crs(instance: &OdooInstance, limit: usize) -> (r: Option<String>)
    ensures
        r == if limit == 0 {
            None
        } else {
            instance.metadata.namespace
        },
{
    if limit == 0 {
        return None;
    }
    crate::crd::meta::clone_opt(&instance.metadata.namespace)
}

// ── Laws ─────────────────────────────────────────────────────────────────────

/// A deletion that fails, or finds nothing, changes the count by nothing, and one
/// that succeeds by one; whatever came of it, the sweep goes on with the job after
/// it.
pub proof fn law_failures_do_not_stop_the_sweep(
    names: Seq<Seq<char>>,
    outcomes: Seq<DeletionOutcome>,
    outcome: DeletionOutcome,
)
    ensures
        deleted_count(outcomes.push(outcome)) == deleted_count(outcomes) + if outcome
            == DeletionOutcome::Deleted {
            1nat
        } else {
            0nat
        },
        deletion_after(names, outcomes.push(outcome)) == if outcomes.len() + 1 < names.len() {
            Some(names[outcomes.len() as int + 1])
        } else {
            None
        },
{
    assert(outcomes.push(outcome).drop_last() =~= outcomes);
}

/// The history of an instance is determined by the jobs.
pub proof fn law_history_is_unique<J: JobResource>(
    jobs: Seq<J>,
    instance: Seq<char>,
    a: Seq<int>,
    b: Seq<int>,
)
    requires
        is_history(jobs, instance, a),
        is_history(jobs, instance, b),
    ensures
        a == b,
{
    lemma_history_len(jobs, instance, a, b);
    lemma_history_len(jobs, instance, b, a);
    assert forall|k: int| 0 <= k < a.len() implies a[k] == b[k] by {
        lemma_same_place(jobs, instance, a, b, k);
    }
    assert(a =~= b);
}

/// A history is no longer than another one.
proof fn lemma_history_len<J: JobResource>(
    jobs: Seq<J>,
    instance: Seq<char>,
    a: Seq<int>,
    b: Seq<int>,
)
    requires
        is_history(jobs, instance, a),
        is_history(jobs, instance, b),
    ensures
        a.len() <= b.len(),
{
    assert(a.no_duplicates()) by {
        assert forall|k: int, l: int|
            0 <= k < a.len() && 0 <= l < a.len() && k != l implies a[k] != a[l] by {
            if k < l {
                assert(precedes(jobs, a[k], a[l]));
            } else {
                assert(precedes(jobs, a[l], a[k]));
            }
        }
    }
    lemma_injects(a, b);
}

/// A list without duplicates is no longer than one that holds all its entries.
proof fn lemma_injects(a: Seq<int>, b: Seq<int>)
    requires
        a.no_duplicates(),
        forall|k: int| 0 <= k < a.len() ==> b.contains(#[trigger] a[k]),
    ensures
        a.len() <= b.len(),
    decreases a.len(),
{
    if a.len() > 0 {
        let x = a.last();
        assert(b.contains(a[a.len() - 1]));
        let p = choose|p: int| 0 <= p < b.len() && b[p] == x;
        let rest = b.remove(p);
        let t = a.drop_last();
        assert forall|k: int| 0 <= k < t.len() implies rest.contains(#[trigger] t[k]) by {
            assert(t[k] == a[k]);
            let q = choose|q: int| 0 <= q < b.len() && b[q] == a[k];
            assert(a[k] != a[a.len() - 1]);
            assert(q != p);
            if q < p {
                assert(rest[q] == a[k]);
            } else {
                assert(rest[q - 1] == a[k]);
            }
        }
        lemma_injects(t, rest);
    }
}

/// Two histories agree at every place.
proof fn lemma_same_place<J: JobResource>(
    jobs: Seq<J>,
    instance: Seq<char>,
    a: Seq<int>,
    b: Seq<int>,
    k: int,
)
    requires
        is_history(jobs, instance, a),
        is_history(jobs, instance, b),
        a.len() == b.len(),
        0 <= k < a.len(),
    ensures
        a[k] == b[k],
    decreases k,
{
    assert forall|l: int| 0 <= l < k implies a[l] == b[l] by {
        lemma_same_place(jobs, instance, a, b, l);
    }
    if a[k] != b[k] {
        assert(b.contains(a[k])) by {
            assert(is_finished_for(jobs[a[k]], instance));
        }
        assert(a.contains(b[k])) by {
            assert(is_finished_for(jobs[b[k]], instance));
        }
        let p = choose|p: int| 0 <= p < b.len() && b[p] == a[k];
        let q = choose|q: int| 0 <= q < a.len() && a[q] == b[k];
        if p < k {
            assert(a[p] == b[p]);
            assert(precedes(jobs, a[p], a[k]));
        } else {
            assert(precedes(jobs, b[k], b[p]));
        }
        if q < k {
            assert(a[q] == b[q]);
            assert(precedes(jobs, b[q], b[k]));
        } else {
            assert(precedes(jobs, a[k], a[q]));
        }
    }
}

/// A job that has not come to its end, or that is for another instance, is never
/// deleted.
pub proof fn law_in_flight_jobs_are_never_deleted<J: JobResource>(
    jobs: Seq<J>,
    instance: Seq<char>,
    places: Seq<int>,
    limit: nat,
    i: int,
)
    requires
        is_history(jobs, instance, places),
        0 <= i < jobs.len(),
        !is_finished_for(jobs[i], instance),
    ensures
        !pruned(places, limit).contains(i),
{
    let gone = pruned(places, limit);
    if gone.contains(i) {
        let k = choose|k: int| 0 <= k < gone.len() && gone[k] == i;
        assert(places[k + limit] == i);
    }
}

/// As many finished jobs are kept as the limit allows, and a kept one is never
/// older than a deleted one.
pub proof fn law_the_newest_are_kept<J: JobResource>(
    jobs: Seq<J>,
    instance: Seq<char>,
    places: Seq<int>,
    limit: nat,
)
    requires
        is_history(jobs, instance, places),
    ensures
        places.len() - pruned(places, limit).len() == if places.len() <= limit {
            places.len() as int
        } else {
            limit as int
        },
        forall|k: int, d: int|
            0 <= k < places.len() && k < limit && 0 <= d < pruned(places, limit).len() ==> !newer(
                jobs[#[trigger] pruned(places, limit)[d]].created(),
                jobs[#[trigger] places[k]].created(),
            ),
{
    let gone = pruned(places, limit);
    assert forall|k: int, d: int|
        0 <= k < places.len() && k < limit && 0 <= d < gone.len() implies !newer(
        jobs[#[trigger] gone[d]].created(),
        jobs[#[trigger] places[k]].created(),
    ) by {
        assert(gone[d] == places[d + limit]);
        assert(precedes(jobs, places[k], places[d + limit]));
    }
}

/// Once the deleted jobs are gone nothing more is deleted: in a list that holds
/// only jobs that were kept, the history is no longer than the limit.
pub proof fn law_pruning_settles<J: JobResource>(
    jobs: Seq<J>,
    instance: Seq<char>,
    places: Seq<int>,
    limit: nat,
    rest: Seq<J>,
    from: Seq<int>,
    rest_places: Seq<int>,
)
    requires
        is_history(jobs, instance, places),
        is_history(rest, instance, rest_places),
        from.len() == rest.len(),
        from.no_duplicates(),
        forall|k: int|
            0 <= k < from.len() ==> 0 <= #[trigger] from[k] < jobs.len() && rest[k] == jobs[from[k]]
                && !pruned(places, limit).contains(from[k]),
    ensures
        pruned(rest_places, limit).len() == 0,
{
    if places.len() <= limit {
        lemma_rest_injects(jobs, instance, places, rest, from, rest_places, places);
    } else {
        let kept = places.take(limit as int);
        assert forall|i: int|
            places.contains(i) && !pruned(places, limit).contains(i) implies kept.contains(i) by {
            let k = choose|k: int| 0 <= k < places.len() && places[k] == i;
            if k >= limit {
                assert(pruned(places, limit)[k - limit] == i);
            } else {
                assert(kept[k] == i);
            }
        }
        lemma_rest_injects(jobs, instance, places, rest, from, rest_places, kept);
    }
}

/// The history of what was kept is no longer than a list that holds it.
proof fn lemma_rest_injects<J: JobResource>(
    jobs: Seq<J>,
    instance: Seq<char>,
    places: Seq<int>,
    rest: Seq<J>,
    from: Seq<int>,
    rest_places: Seq<int>,
    kept: Seq<int>,
)
    requires
        is_history(jobs, instance, places),
        is_history(rest, instance, rest_places),
        from.len() == rest.len(),
        from.no_duplicates(),
        forall|k: int|
            0 <= k < from.len() ==> 0 <= #[trigger] from[k] < jobs.len() && rest[k]
                == jobs[from[k]],
        forall|k: int|
            0 <= k < from.len() && places.contains(#[trigger] from[k]) ==> kept.contains(from[k]),
    ensures
        rest_places.len() <= kept.len(),
{
    let image = rest_places.map_values(|i: int| from[i]);
    assert(image.no_duplicates()) by {
        assert forall|k: int, l: int|
            0 <= k < image.len() && 0 <= l < image.len() && k != l implies image[k] != image[l] by {
            if k < l {
                assert(precedes(rest, rest_places[k], rest_places[l]));
            } else {
                assert(precedes(rest, rest_places[l], rest_places[k]));
            }
            assert(rest_places[k] != rest_places[l]);
        }
    }
    assert forall|k: int| 0 <= k < image.len() implies kept.contains(#[trigger] image[k]) by {
        let i = rest_places[k];
        assert(is_finished_for(rest[i], instance));
        assert(rest[i] == jobs[from[i]]);
        assert(places.contains(from[i]));
    }
    lemma_injects(image, kept);
}

/// Whether a name is that of a job for an instance that has completed or failed.
pub open spec fn is_name_of_finished(
    jobs: Seq<OdooBackupJob>,
    instance: Seq<char>,
    name: Seq<char>,
) -> bool {
    exists|i: int|
        0 <= i < jobs.len() && (#[trigger] jobs[i]).metadata.name_text() == name
            && jobs[i].spec.odoo_instance_ref.name@ == instance && (jobs[i].status matches Some(s)
            && (s.phase == Some(Phase::Completed) || s.phase == Some(Phase::Failed)))
}

/// Only finished jobs of the instance are pruned, and none where there are no more jobs
/// than the limit allows.
pub proof fn law_old_finished_jobs_go(
    jobs: &Vec<OdooBackupJob>,
    instance_name: &str,
    limit: usize,
    r: Vec<String>,
)
    requires
        call_ensures(prune::<OdooBackupJob>, (jobs, instance_name, limit), r),
    ensures
        forall|k: int|
            0 <= k < r@.len() ==> is_name_of_finished(jobs@, instance_name@, (#[trigger] r@[k])@),
        r@.len() <= jobs@.len(),
        jobs@.len() <= limit ==> r@.len() == 0,
{
    let places = choose|places: Seq<int>| #[trigger]
        is_history(jobs@, instance_name@, places) && texts(r@) == names_at(
            jobs@,
            pruned(places, limit as nat),
        );
    let gone = pruned(places, limit as nat);
    assert(texts(r@).len() == r@.len());
    assert(names_at(jobs@, gone).len() == gone.len());
    assert forall|k: int| 0 <= k < r@.len() implies is_name_of_finished(
        jobs@,
        instance_name@,
        (#[trigger] r@[k])@,
    ) by {
        assert(texts(r@)[k] == r@[k]@);
        let i = gone[k];
        assert(names_at(jobs@, gone)[k] == jobs@[i].own_name());
        assert(places[k + limit] == i);
        assert(is_finished_for(jobs@[i], instance_name@));
        assert(jobs@[i].metadata.name_text() == r@[k]@);
    }
    lemma_history_fits(jobs@, instance_name@, places);
}

proof fn lemma_history_fits<J: JobResource>(jobs: Seq<J>, instance: Seq<char>, places: Seq<int>)
    requires
        is_history(jobs, instance, places),
    ensures
        places.len() <= jobs.len(),
{
    assert(places.no_duplicates()) by {
        assert forall|k: int, l: int|
            0 <= k < places.len() && 0 <= l < places.len() && k != l implies places[k]
            != places[l] by {
            if k < l {
                assert(precedes(jobs, places[k], places[l]));
            } else {
                assert(precedes(jobs, places[l], places[k]));
            }
        }
    }
    places.unique_seq_to_set();
    let all = vstd::set_lib::set_int_range(0, jobs.len() as int);
    vstd::set_lib::lemma_int_range(0, jobs.len() as int);
    assert(places.to_set().subset_of(all)) by {
        assert forall|i: int| places.to_set().contains(i) implies all.contains(i) by {
            let k = choose|k: int| 0 <= k < places.len() && places[k] == i;
            assert(0 <= places[k] < jobs.len());
        }
    }
    vstd::set_lib::lemma_len_subset(places.to_set(), all);
}

/// Of two jobs in a history the one that comes first was not created before the other:
/// times count to the nanosecond, and a job without a time comes last.
pub proof fn law_histories_go_back_in_time(
    jobs: Seq<OdooBackupJob>,
    instance: Seq<char>,
    places: Seq<int>,
    k: int,
    l: int,
)
    requires
        is_history(jobs, instance, places),
        0 <= k < l < places.len(),
    ensures
        ({
            let first = jobs[places[k]].metadata.creation_timestamp;
            let second = jobs[places[l]].metadata.creation_timestamp;
            &&& first is None ==> second is None
            &&& first matches Some(a) ==> second matches Some(b) ==> b.secs < a.secs || (b.secs
                == a.secs && b.nanos <= a.nanos)
            &&& first == second ==> places[k] < places[l]
        }),
{
    assert(precedes(jobs, places[k], places[l]));
}

/// The history of an instance is not bounded where the limit is zero or the instance has
/// no namespace, and else in its namespace.
pub proof fn law_a_limit_of_zero_keeps_everything(
    instance: &OdooInstance,
    limit: usize,
    r: Option<String>,
)
    requires
        call_ensures(garbage_collect_job_crs, (instance, limit), r),
    ensures
        limit == 0 ==> r is None,
        limit > 0 ==> (instance.metadata.namespace matches Some(n) ==> (r matches Some(k) && k@
            == n@)),
        instance.metadata.namespace is None ==> r is None,
{
}

/// Deletions go through the list in order: one after another, each name once, whatever came
/// of the ones before.
pub proof fn law_deletions_go_through_the_list(
    names: &Vec<String>,
    outcomes: &Vec<DeletionOutcome>,
    r: Option<String>,
)
    requires
        call_ensures(next_deletion, (names, outcomes), r),
    ensures
        r is None <==> outcomes@.len() >= names@.len(),
        r matches Some(n) ==> n@ == names@[outcomes@.len() as int]@,
{
    assert(texts(names@).len() == names@.len());
    if outcomes@.len() < names@.len() {
        assert(texts(names@)[outcomes@.len() as int] == names@[outcomes@.len() as int]@);
    }
}

/// Each deletion that succeeded counts once, and no other.
pub proof fn law_successes_are_counted(
    outcomes: &Vec<DeletionOutcome>,
    more: &Vec<DeletionOutcome>,
    r: usize,
    longer: usize,
)
    requires
        call_ensures(count_deletions, (outcomes,), r),
        call_ensures(count_deletions, (more,), longer),
        more@.len() == outcomes@.len() + 1,
        more@.drop_last() == outcomes@,
    ensures
        outcomes@.len() == 0 ==> r == 0,
        more@.last() == DeletionOutcome::Deleted ==> longer == r + 1,
        more@.last() != DeletionOutcome::Deleted ==> longer == r,
{
}

} // verus!
