//! Dependency ordering of a goal's tasks.
//!
//! Tasks are listed so that every task comes after its in-goal blockers.
//! The sort repeatedly emits, in snapshot order, the first task not yet
//! emitted whose in-set blockers have all been emitted; with the snapshot in
//! creation order this breaks ties among equally-ready tasks by creation
//! order, stably. Blocker ids that name no task in the set are ignored for
//! ordering. Tasks caught in a dependency cycle are never ready and are left
//! out of the result.

use vstd::prelude::*;

use crate::models::{clone_task, Task, TaskV};

verus! {

/// Whether some task in the snapshot carries the given id.
pub open spec fn has_task_id(ts: Seq<TaskV>, id: Seq<char>) -> bool {
    exists|i: int| 0 <= i < ts.len() && ts[i].id == id
}

/// Whether `t` occurs in the snapshot `ts`.
pub open spec fn snapshot_has(ts: Seq<TaskV>, t: TaskV) -> bool {
    exists|i: int| 0 <= i < ts.len() && ts[i] == t
}

/// Whether `t` is ready to be emitted: each of its blockers either names no
/// task of the snapshot `ts`, or names a task already emitted into `outv`.
pub open spec fn ready_in(ts: Seq<TaskV>, t: TaskV, outv: Seq<TaskV>) -> bool {
    forall|j: int|
        0 <= j < t.blockers().len() ==> (!has_task_id(ts, t.blockers()[j]) || has_task_id(
            outv,
            t.blockers()[j],
        ))
}

/// Whether some task of `v` carries the id `id`.
fn vec_has_id(v: &Vec<Task>, id: &str) -> (r: bool)
    ensures
        r == has_task_id(v.deep_view(), id@),
{
    let ghost vv = v.deep_view();
    let mut i: usize = 0;
    while i < v.len()
        invariant
            i <= v.len(),
            vv == v.deep_view(),
            forall|k: int| 0 <= k < i ==> vv[k].id != id@,
        decreases v.len() - i,
    {
        proof {
            assert(vv[i as int] == v@[i as int]@);
        }
        if crate::strutil::str_eq(v[i].id.as_str(), id) {
            assert(has_task_id(vv, id@)) by {
                assert(vv[i as int].id == id@);
            }
            return true;
        }
        i += 1;
    }
    false
}

/// Whether `t` is ready w.r.t. the snapshot and the tasks emitted so far.
fn is_ready(tasks: &Vec<Task>, t: &Task, out: &Vec<Task>) -> (r: bool)
    ensures
        r == ready_in(tasks.deep_view(), t@, out.deep_view()),
{
    let ghost tsv = tasks.deep_view();
    let ghost outv = out.deep_view();
    match &t.blocked_by {
        Some(bs) => {
            assert(t@.blockers() == bs.deep_view());
            let mut j: usize = 0;
            while j < bs.len()
                invariant
                    j <= bs.len(),
                    tsv == tasks.deep_view(),
                    outv == out.deep_view(),
                    bs.deep_view() == t@.blockers(),
                    forall|k: int|
                        0 <= k < j ==> (!has_task_id(tsv, t@.blockers()[k]) || has_task_id(
                            outv,
                            t@.blockers()[k],
                        )),
                decreases bs.len() - j,
            {
                proof {
                    assert(bs.deep_view()[j as int] == bs@[j as int]@);
                }
                if vec_has_id(tasks, bs[j].as_str()) {
                    if !vec_has_id(out, bs[j].as_str()) {
                        assert(has_task_id(tsv, t@.blockers()[j as int]) && !has_task_id(
                            outv,
                            t@.blockers()[j as int],
                        ));
                        return false;
                    }
                }
                j += 1;
            }
            true
        },
        None => {
            assert(t@.blockers() =~= Seq::<Seq<char>>::empty());
            true
        },
    }
}

/// Whether position `k` of the emitted sequence holds the snapshot's
/// earliest task that was still unemitted and ready at that step.
pub open spec fn first_fit_at(ts: Seq<TaskV>, outv: Seq<TaskV>, k: int) -> bool {
    exists|i: int|
        #![trigger ts[i]]
        0 <= i < ts.len() && outv[k] == ts[i] && !has_task_id(outv.take(k), ts[i].id)
            && ready_in(ts, ts[i], outv.take(k)) && (forall|j: int|
            0 <= j < i ==> has_task_id(outv.take(k), ts[j].id) || !ready_in(
                ts,
                ts[j],
                outv.take(k),
            ))
}

/// Stable topological sort of `tasks` by their in-set `blocked_by` edges:
/// Kahn's algorithm, emitting at each step the snapshot's earliest task
/// whose in-set blockers are all emitted. With the snapshot in creation
/// order this breaks ties among equally-ready tasks by creation order.
///
/// The result lists distinct tasks of the snapshot, each after all the
/// emitted tasks its blockers name; a task is left out only when it waits,
/// directly or through a chain, on a blocker that is never emitted (a
/// dependency cycle).
pub fn topo_sort(tasks: &Vec<Task>) -> (r: Vec<Task>)
    ensures
        r@.len() <= tasks@.len(),
        // each element of the result is an element of the snapshot
        forall|k: int|
            0 <= k < r@.len() ==> snapshot_has(tasks.deep_view(), #[trigger] r.deep_view()[k]),
        // no id is emitted twice
        forall|k1: int, k2: int|
            0 <= k1 < k2 < r@.len() ==> r.deep_view()[k1].id != r.deep_view()[k2].id,
        // every task comes after the emitted tasks its blockers name
        forall|k: int|
            0 <= k < r@.len() ==> ready_in(
                tasks.deep_view(),
                r.deep_view()[k],
                r.deep_view().take(k),
            ),
        // each step emits the earliest task that was unemitted and ready
        forall|k: int| 0 <= k < r@.len() ==> first_fit_at(tasks.deep_view(), r.deep_view(), k),
        // only tasks waiting on an unemitted in-set blocker are left out
        forall|i: int|
            0 <= i < tasks@.len() && !has_task_id(r.deep_view(), tasks.deep_view()[i].id)
                ==> !ready_in(tasks.deep_view(), tasks.deep_view()[i], r.deep_view()),
{
    let ghost tsv = tasks.deep_view();
    let n = tasks.len();
    let mut out: Vec<Task> = Vec::new();
    let mut done = false;
    while !done
        invariant
            tsv == tasks.deep_view(),
            n == tasks@.len(),
            out@.len() <= n,
            forall|k: int|
                0 <= k < out@.len() ==> snapshot_has(tsv, #[trigger] out.deep_view()[k]),
            forall|k1: int, k2: int|
                0 <= k1 < k2 < out@.len() ==> out.deep_view()[k1].id != out.deep_view()[k2].id,
            forall|k: int|
                0 <= k < out@.len() ==> ready_in(tsv, out.deep_view()[k], out.deep_view().take(k)),
            forall|k: int| 0 <= k < out@.len() ==> first_fit_at(tsv, out.deep_view(), k),
            done ==> forall|i: int|
                0 <= i < tsv.len() && !has_task_id(out.deep_view(), tsv[i].id) ==> !ready_in(
                    tsv,
                    tsv[i],
                    out.deep_view(),
                ),
        decreases n - out@.len() + (if done { 0int } else { 1int }),
    {
        let ghost len_at_scan_start = out@.len();
        let ghost out_at_scan_start = out.deep_view();
        let mut emitted = false;
        let mut i: usize = 0;
        while i < n && !emitted
            invariant
                tsv == tasks.deep_view(),
                n == tasks@.len(),
                out@.len() <= n,
                emitted ==> out@.len() == len_at_scan_start + 1,
                len_at_scan_start <= out@.len(),
                out_at_scan_start.len() == len_at_scan_start,
                !emitted ==> out.deep_view() == out_at_scan_start,
                forall|k: int|
                    0 <= k < out@.len() ==> snapshot_has(tsv, #[trigger] out.deep_view()[k]),
                forall|k1: int, k2: int|
                    0 <= k1 < k2 < out@.len() ==> out.deep_view()[k1].id != out.deep_view()[k2].id,
                forall|k: int|
                    0 <= k < out@.len() ==> ready_in(
                        tsv,
                        out.deep_view()[k],
                        out.deep_view().take(k),
                    ),
                forall|k: int| 0 <= k < out@.len() ==> first_fit_at(tsv, out.deep_view(), k),
                !emitted ==> forall|i0: int|
                    0 <= i0 < i ==> has_task_id(out.deep_view(), tsv[i0].id) || !ready_in(
                        tsv,
                        tsv[i0],
                        out.deep_view(),
                    ),
            decreases n - i,
        {
            proof {
                assert(tsv[i as int] == tasks@[i as int]@);
            }
            let already = vec_has_id(&out, tasks[i].id.as_str());
            if !already {
                let ready = is_ready(tasks, &tasks[i], &out);
                if ready {
                    if out.len() < n {
                        let ghost old_out = out.deep_view();
                        out.push(clone_task(&tasks[i]));
                        emitted = true;
                        proof {
                            assert(out.deep_view() =~= old_out.push(tsv[i as int]));
                            assert(out.deep_view().take(out@.len() - 1) =~= old_out);
                            assert forall|k: int| 0 <= k < out@.len() implies ready_in(
                                tsv,
                                out.deep_view()[k],
                                out.deep_view().take(k),
                            ) by {
                                if k < out@.len() - 1 {
                                    assert(out.deep_view().take(k) =~= old_out.take(k));
                                    assert(ready_in(tsv, old_out[k], old_out.take(k)));
                                } else {
                                    assert(out.deep_view()[k] == tsv[i as int]);
                                    assert(ready_in(tsv, tsv[i as int], old_out));
                                }
                            }
                            assert forall|k: int| 0 <= k < out@.len() implies first_fit_at(
                                tsv,
                                out.deep_view(),
                                k,
                            ) by {
                                if k < out@.len() - 1 {
                                    assert(out.deep_view().take(k) =~= old_out.take(k));
                                    assert(first_fit_at(tsv, old_out, k));
                                    let i0 = choose|i0: int|
                                        #![trigger tsv[i0]]
                                        0 <= i0 < tsv.len() && old_out[k] == tsv[i0]
                                            && !has_task_id(old_out.take(k), tsv[i0].id)
                                            && ready_in(tsv, tsv[i0], old_out.take(k)) && (
                                        forall|j: int|
                                            0 <= j < i0 ==> has_task_id(
                                                old_out.take(k),
                                                tsv[j].id,
                                            ) || !ready_in(tsv, tsv[j], old_out.take(k)));
                                    assert(out.deep_view()[k] == tsv[i0]);
                                } else {
                                    assert(out.deep_view()[k] == tsv[i as int]);
                                    assert(out.deep_view().take(k) =~= old_out);
                                    assert(!has_task_id(old_out, tsv[i as int].id));
                                    assert(ready_in(tsv, tsv[i as int], old_out));
                                    assert forall|j: int| 0 <= j < i as int implies has_task_id(
                                        old_out,
                                        tsv[j].id,
                                    ) || !ready_in(tsv, tsv[j], old_out) by {}
                                }
                            }
                        }
                    } else {
                        // cannot happen: out holds distinct snapshot ids, and
                        // the id about to be emitted is a fresh one
                        proof {
                            assert(has_task_id(tsv, tsv[i as int].id)) by {
                                assert(tsv[i as int].id == tsv[i as int].id);
                            }
                            lemma_fresh_id_fits(tsv, out.deep_view(), tsv[i as int].id);
                        }
                        assert(false);
                    }
                }
            }
            i += 1;
        }
        if !emitted {
            done = true;
        }
    }
    out
}

/// A snapshot cannot be exhausted: tasks drawn from `ts` with pairwise
/// distinct ids, none carrying a given id that `ts` does contain, number
/// strictly fewer than the tasks of `ts`.
proof fn lemma_fresh_id_fits(ts: Seq<TaskV>, outv: Seq<TaskV>, extra: Seq<char>)
    requires
        forall|k: int| 0 <= k < outv.len() ==> snapshot_has(ts, #[trigger] outv[k]),
        forall|k1: int, k2: int| 0 <= k1 < k2 < outv.len() ==> outv[k1].id != outv[k2].id,
        !has_task_id(outv, extra),
        has_task_id(ts, extra),
    ensures
        outv.len() < ts.len(),
{
    let ids_out = Seq::new(outv.len(), |k: int| outv[k].id).push(extra);
    let ids_ts = Seq::new(ts.len(), |q: int| ts[q].id);
    assert forall|k1: int, k2: int| 0 <= k1 < k2 < ids_out.len() implies ids_out[k1]
        != ids_out[k2] by {
        if k2 < outv.len() {
            assert(outv[k1].id != outv[k2].id);
        } else {
            assert(ids_out[k2] == extra);
            assert(outv[k1].id != extra);
        }
    }
    assert forall|k: int| 0 <= k < ids_out.len() implies ids_ts.contains(ids_out[k]) by {
        if k < outv.len() {
            assert(snapshot_has(ts, outv[k]));
            let i0 = choose|i0: int| 0 <= i0 < ts.len() && ts[i0] == outv[k];
            assert(ids_ts[i0] == outv[k].id);
        } else {
            let i0 = choose|i0: int| 0 <= i0 < ts.len() && ts[i0].id == extra;
            assert(ids_ts[i0] == extra);
        }
    }
    lemma_distinct_subset_len(ids_out, ids_ts);
}

/// A sequence without repeats whose elements all occur in `s2` is no longer
/// than `s2`.
proof fn lemma_distinct_subset_len(s1: Seq<Seq<char>>, s2: Seq<Seq<char>>)
    requires
        forall|k1: int, k2: int| 0 <= k1 < k2 < s1.len() ==> s1[k1] != s1[k2],
        forall|k: int| 0 <= k < s1.len() ==> s2.contains(s1[k]),
    ensures
        s1.len() <= s2.len(),
{
    broadcast use vstd::seq_lib::seq_to_set_is_finite;
    broadcast use vstd::set::group_set_axioms;

    assert(s1.no_duplicates());
    s1.unique_seq_to_set();
    s2.lemma_cardinality_of_set();
    assert(s1.to_set().subset_of(s2.to_set())) by {
        assert forall|x: Seq<char>| s1.to_set().contains(x) implies s2.to_set().contains(x) by {
            assert(s1.contains(x));
            let k = choose|k: int| 0 <= k < s1.len() && s1[k] == x;
            assert(s2.contains(s1[k]));
        }
    }
    vstd::set_lib::lemma_len_subset(s1.to_set(), s2.to_set());
}

} // verus!
