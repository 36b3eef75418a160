use vstd::prelude::*;

use crate::runner::{holds, settling, Event, SchedulerView};
use crate::jobs::{result_done, result_settled, JobResult, Status};

verus! {

/// A slot that a job can never leave: an error, or skipped.
pub open spec fn failed(r: JobResult) -> bool {
    r is Err || holds(r, Status::Skipped)
}

/// Every event of the sequence carries a settled result, if any.
pub open spec fn all_settling(es: Seq<Event>) -> bool {
    forall|k: int| 0 <= k < es.len() ==> settling(#[trigger] es[k])
}

proof fn lemma_first_ready_some(r: SchedulerView, from: int)
    requires
        from >= 0,
        r.first_ready(from) is Some,
    ensures
        from <= r.first_ready(from)->0 < r.len(),
        r.ready(r.first_ready(from)->0),
        forall|y: int| from <= y < r.first_ready(from)->0 ==> !#[trigger] r.ready(y),
    decreases r.len() - from,
{
    if from < r.len() && !r.ready(from) {
        lemma_first_ready_some(r, from + 1);
    }
}

proof fn lemma_first_ready_none(r: SchedulerView, from: int, y: int)
    requires
        0 <= from <= y < r.len(),
        r.first_ready(from) is None,
    ensures
        !r.ready(y),
    decreases y - from,
{
    if from < y {
        lemma_first_ready_none(r, from + 1, y);
    }
}

proof fn lemma_first_ready_finds(r: SchedulerView, from: int, j: int)
    requires
        0 <= from <= j < r.len(),
        r.ready(j),
    ensures
        r.first_ready(from) is Some,
    decreases j - from,
{
    if from < j && !r.ready(from) {
        lemma_first_ready_finds(r, from + 1, j);
    }
}

/// The job a take hands out is one that was ready once the scheduler looked again.
proof fn lemma_pick_ready(v: SchedulerView)
    requires
        v.pick() is Some,
    ensures
        0 <= v.pick()->0 < v.len(),
        v.refresh().ready(v.pick()->0),
{
    lemma_first_ready_some(v.refresh(), 0);
}

proof fn lemma_refresh_done(v: SchedulerView, x: int)
    requires
        v.wf(),
        0 <= x < v.len(),
    ensures
        result_done(v.refresh().skipped_at(x)) == result_done(v.skipped_at(x)),
{
}

proof fn lemma_refresh_needs_done(v: SchedulerView, j: int)
    requires
        v.wf(),
        0 <= j < v.len(),
    ensures
        v.refresh().needs_done(j) == v.needs_done(j),
{
    let row = v.needs[j];
    assert forall|k: int| 0 <= k < row.len() implies result_done(#[trigger] v.refresh().skipped_at(row[k] as int))
        == result_done(v.skipped_at(row[k] as int)) by {
        lemma_refresh_done(v, row[k] as int);
    }
    if v.needs_done(j) {
        assert forall|k: int| 0 <= k < row.len() implies result_done(
            #[trigger] v.refresh().skipped_at(row[k] as int),
        ) by {
            assert(result_done(v.skipped_at(row[k] as int)));
        }
    }
    if v.refresh().needs_done(j) {
        assert forall|k: int| 0 <= k < row.len() implies result_done(#[trigger] v.skipped_at(row[k] as int)) by {
            assert(result_done(v.refresh().skipped_at(row[k] as int)));
        }
    }
}

/// A step changes neither the jobs, their needs nor their guards, and keeps the model
/// well formed.
proof fn lemma_step_frame(v: SchedulerView, e: Event)
    requires
        v.wf(),
    ensures
        v.step(e).wf(),
        v.step(e).names == v.names,
        v.step(e).needs == v.needs,
        v.step(e).when == v.when,
        forall|j: int| 0 <= j < v.len() && v.taken[j] ==> #[trigger] v.step(e).taken[j],
{
    if e is Take && v.pick() is Some {
        lemma_pick_ready(v);
    }
}

proof fn lemma_steps_frame(v: SchedulerView, es: Seq<Event>)
    requires
        v.wf(),
    ensures
        v.steps(es).wf(),
        v.steps(es).names == v.names,
        v.steps(es).needs == v.needs,
        v.steps(es).when == v.when,
        forall|j: int| 0 <= j < v.len() && v.taken[j] ==> #[trigger] v.steps(es).taken[j],
    decreases es.len(),
{
    if es.len() > 0 {
        lemma_steps_frame(v, es.drop_last());
        lemma_step_frame(v.steps(es.drop_last()), es.last());
    }
}

/// Each call on the scheduler keeps what holds in every state of a run.
pub proof fn lemma_step_inv(v: SchedulerView, e: Event)
    requires
        v.inv(),
        settling(e),
    ensures
        v.step(e).inv(),
{
    lemma_step_frame(v, e);
    match e {
        Event::Take => {
            let r = v.refresh();
            assert forall|j: int| 0 <= j < v.len() implies #[trigger] r.needs_done(j) == v.needs_done(j) by {
                lemma_refresh_needs_done(v, j);
            }
            assert(r.inv());
            if v.pick() is Some {
                lemma_pick_ready(v);
                let i = v.pick()->0;
                let w = v.after_take();
                assert forall|j: int| 0 <= j < w.len() && !#[trigger] w.taken[j] && holds(w.results[j], Status::Pending)
                    implies w.needs_done(j) by {
                    assert(r.needs_done(j));
                    let row = w.needs[j];
                    assert forall|k: int| 0 <= k < row.len() implies result_done(#[trigger] w.skipped_at(row[k] as int)) by {
                        assert(result_done(r.skipped_at(row[k] as int)));
                    }
                }
            }
        },
        Event::Record(i, res) => {
            let w = v.step(e);
            if 0 <= i < v.len() && holds(v.results[i as int], Status::InProgress) {
                assert forall|j: int| 0 <= j < w.len() && !#[trigger] w.taken[j] && holds(w.results[j], Status::Pending)
                    implies w.needs_done(j) by {
                    assert(v.needs_done(j));
                    let row = w.needs[j];
                    assert forall|k: int| 0 <= k < row.len() implies result_done(#[trigger] w.skipped_at(row[k] as int)) by {
                        assert(result_done(v.skipped_at(row[k] as int)));
                    }
                }
            }
        },
    }
}

/// What holds in every state of a run still holds after any sequence of calls.
pub proof fn lemma_steps_inv(v: SchedulerView, es: Seq<Event>)
    requires
        v.inv(),
        all_settling(es),
    ensures
        v.steps(es).inv(),
    decreases es.len(),
{
    if es.len() > 0 {
        let init = es.drop_last();
        assert(all_settling(init)) by {
            assert forall|k: int| 0 <= k < init.len() implies settling(#[trigger] init[k]) by {
                assert(settling(es[k]));
            }
        }
        lemma_steps_inv(v, init);
        assert(settling(es[es.len() - 1]));
        lemma_step_inv(v.steps(init), es.last());
    }
}

/// A job is handed out only once every job it needs was taken before it and is done.
pub proof fn lemma_needs_done_before_take(v: SchedulerView)
    requires
        v.inv(),
        v.pick() is Some,
    ensures
        forall|k: int|
            0 <= k < v.needs[v.pick()->0].len() ==> {
                let j = #[trigger] v.needs[v.pick()->0][k] as int;
                v.taken[j] && result_done(v.results[j])
            },
{
    lemma_pick_ready(v);
    let i = v.pick()->0;
    assert(v.needs_done(i));
    let row = v.needs[i];
    assert forall|k: int| 0 <= k < row.len() implies {
        let j = #[trigger] row[k] as int;
        v.taken[j] && result_done(v.results[j])
    } by {
        assert(result_done(v.skipped_at(row[k] as int)));
    }
}

/// A job handed out by a take is never handed out again, whatever calls follow.
pub proof fn lemma_handed_out_once(v: SchedulerView, es: Seq<Event>)
    requires
        v.wf(),
        v.pick() is Some,
    ensures
        v.after_take().steps(es).taken[v.pick()->0],
        v.after_take().steps(es).pick() != Some(v.pick()->0),
{
    lemma_pick_ready(v);
    let i = v.pick()->0;
    lemma_step_frame(v, Event::Take);
    let w = v.after_take().steps(es);
    lemma_steps_frame(v.after_take(), es);
    if w.pick() is Some {
        lemma_pick_ready(w);
    }
}

pub proof fn lemma_failed_stays(v: SchedulerView, es: Seq<Event>, j: int)
    requires
        v.inv(),
        all_settling(es),
        0 <= j < v.len(),
        failed(v.results[j]),
    ensures
        failed(v.steps(es).results[j]),
    decreases es.len(),
{
    if es.len() > 0 {
        let init = es.drop_last();
        assert(all_settling(init)) by {
            assert forall|k: int| 0 <= k < init.len() implies settling(#[trigger] init[k]) by {
                assert(settling(es[k]));
            }
        }
        lemma_failed_stays(v, init, j);
        lemma_steps_inv(v, init);
        lemma_steps_frame(v, init);
        let u = v.steps(init);
        if es.last() is Take && u.pick() is Some {
            lemma_pick_ready(u);
        }
    }
}

/// A job one of whose needs ended in an error or was skipped is never handed out.
pub proof fn lemma_failed_need_blocks(v: SchedulerView, es: Seq<Event>, i: int, k: int)
    requires
        v.inv(),
        all_settling(es),
        0 <= i < v.len(),
        0 <= k < v.needs[i].len(),
        failed(v.results[v.needs[i][k] as int]),
    ensures
        v.steps(es).pick() != Some(i),
{
    let j = v.needs[i][k] as int;
    lemma_failed_stays(v, es, j);
    lemma_steps_inv(v, es);
    lemma_steps_frame(v, es);
    let w = v.steps(es);
    if w.pick() == Some(i) {
        lemma_needs_done_before_take(w);
        assert(w.needs[w.pick()->0][k] == j);
    }
}

/// A job whose guard is false is never handed out and is skipped at the next take; no
/// job that needs it is ever handed out.
pub proof fn lemma_false_guard_skips(v: SchedulerView, es: Seq<Event>, a: int)
    requires
        v.inv(),
        all_settling(es),
        0 <= a < v.len(),
        !v.when[a],
    ensures
        !v.steps(es).taken[a],
        v.steps(es).pick() != Some(a),
        v.steps(es).after_take().results[a] == Ok::<Status, crate::jobs::Error>(Status::Skipped),
        forall|i: int, k: int|
            0 <= i < v.len() && 0 <= k < v.needs[i].len() && v.needs[i][k] == a ==> v.steps(es).pick()
                != Some(i),
{
    lemma_steps_inv(v, es);
    lemma_steps_frame(v, es);
    let w = v.steps(es);
    if w.pick() is Some {
        lemma_pick_ready(w);
        lemma_needs_done_before_take(w);
    }
    assert forall|i: int, k: int|
        0 <= i < v.len() && 0 <= k < v.needs[i].len() && v.needs[i][k] == a implies w.pick() != Some(i) by {
        if w.pick() == Some(i) {
            assert(w.needs[i][k] == a);
        }
    }
}

/// Once no job is in progress and a take hands out nothing, every job is settled: the
/// run has ended.
pub proof fn lemma_quiet_end_settled(v: SchedulerView)
    requires
        v.inv(),
        v.pick() is None,
        forall|j: int| 0 <= j < v.len() ==> !holds(#[trigger] v.results[j], Status::InProgress),
    ensures
        v.after_take().all_settled(),
{
    let r = v.refresh();
    if !r.all_settled() {
        assert forall|j: int| 0 <= j < r.len() implies result_settled(#[trigger] r.results[j]) by {
            lemma_first_ready_none(r, 0, j);
        }
    }
}

/// A job that is ready is handed out by the next take, even while others are in progress.
pub proof fn lemma_ready_job_handed_out(v: SchedulerView, j: int)
    requires
        v.wf(),
        0 <= j < v.len(),
        v.refresh().ready(j),
    ensures
        v.pick() is Some,
        v.pick()->0 <= j,
{
    let r = v.refresh();
    assert(!result_settled(r.results[j]));
    lemma_first_ready_finds(r, 0, j);
    lemma_first_ready_some(r, 0);
}

/// The number of jobs not yet taken.
pub open spec fn count_untaken(taken: Seq<bool>) -> nat
    decreases taken.len(),
{
    if taken.len() == 0 {
        0
    } else {
        count_untaken(taken.drop_last()) + if taken.last() {
            0nat
        } else {
            1nat
        }
    }
}

proof fn lemma_count_take(s: Seq<bool>, i: int)
    requires
        0 <= i < s.len(),
        !s[i],
    ensures
        count_untaken(s.update(i, true)) + 1 == count_untaken(s),
    decreases s.len(),
{
    let t = s.update(i, true);
    if i == s.len() - 1 {
        assert(t.drop_last() =~= s.drop_last());
    } else {
        assert(t.drop_last() =~= s.drop_last().update(i, true));
        lemma_count_take(s.drop_last(), i);
    }
}

/// A take that hands out a job leaves one job fewer untaken, and no call adds one: a run
/// hands out at most as many jobs as it has, so every worker, which takes or stops on
/// each turn, stops.
pub proof fn lemma_step_uses_up_jobs(v: SchedulerView, e: Event)
    requires
        v.wf(),
    ensures
        count_untaken(v.step(e).taken) <= count_untaken(v.taken),
        e is Take && v.pick() is Some ==> count_untaken(v.step(e).taken) + 1 == count_untaken(v.taken),
{
    if e is Take && v.pick() is Some {
        lemma_pick_ready(v);
        lemma_count_take(v.taken, v.pick()->0);
    }
}

} // verus!
