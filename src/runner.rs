use vstd::prelude::*;

use crate::jobs::{self, is_result_done, is_result_settled, result_done, result_settled, JobResult, Status};

verus! {

/// What the scheduler needs to know of a job: its name, the names it needs, and its guard.
#[derive(Clone, Debug)]
pub struct JobInfo {
    pub name: String,
    pub needs: Vec<String>,
    pub when: bool,
}

/// Why a list of jobs cannot be run.
#[derive(Clone, Debug, PartialEq, Eq)]
pub enum Error {
    /// Two jobs have this name.
    DuplicateName(String),
    /// A job needs a name that no job has.
    UnknownNeed { job: String, need: String },
}

/// The decisions of a run: which job is ready, which is taken, and the status of each.
/// Jobs are known by their place in the list the scheduler was made from; a job is never
/// handed out twice.
pub struct Scheduler {
    names: Vec<String>,
    needs: Vec<Vec<usize>>,
    guards: Vec<bool>,
    taken: Vec<bool>,
    results: Vec<JobResult>,
}

/// The model of a [`Scheduler`]: for each job, the places of the jobs it needs, its guard,
/// whether it was taken, and its status or error.
pub struct SchedulerView {
    pub names: Seq<Seq<char>>,
    pub needs: Seq<Seq<usize>>,
    pub when: Seq<bool>,
    pub taken: Seq<bool>,
    pub results: Seq<JobResult>,
}

/// One call on a scheduler: a take, or the record of a job's result.
pub enum Event {
    Take,
    Record(usize, JobResult),
}

pub open spec fn holds(r: JobResult, s: Status) -> bool {
    r == Ok::<Status, jobs::Error>(s)
}

impl SchedulerView {
    pub open spec fn len(self) -> int {
        self.results.len() as int
    }

    /// Every sequence has one entry per job, and every need names a job.
    pub open spec fn wf(self) -> bool {
        &&& self.names.len() == self.len()
        &&& self.needs.len() == self.len()
        &&& self.when.len() == self.len()
        &&& self.taken.len() == self.len()
        &&& forall|i: int, k: int|
            0 <= i < self.len() && 0 <= k < self.needs[i].len() ==> #[trigger] self.needs[i][k] < self.len()
    }

    /// The slot of job `j` once every job left in the list with a false guard is skipped.
    pub open spec fn skipped_at(self, j: int) -> JobResult {
        if !self.taken[j] && !self.when[j] {
            Ok(Status::Skipped)
        } else {
            self.results[j]
        }
    }

    /// Every job that job `i` needs is done, once guards are applied.
    pub open spec fn needs_done(self, i: int) -> bool {
        forall|k: int| 0 <= k < self.needs[i].len() ==> result_done(#[trigger] self.skipped_at(self.needs[i][k] as int))
    }

    /// The slot of job `i` after the scheduler looks again: a job left in the list with a
    /// false guard is skipped; a blocked one whose needs are all done is pending.
    pub open spec fn refreshed_at(self, i: int) -> JobResult {
        if !self.taken[i] && !self.when[i] {
            Ok(Status::Skipped)
        } else if !self.taken[i] && holds(self.results[i], Status::Blocked) && self.needs_done(i) {
            Ok(Status::Pending)
        } else {
            self.results[i]
        }
    }

    pub open spec fn refresh(self) -> SchedulerView {
        SchedulerView {
            results: Seq::new(self.results.len(), |i: int| self.refreshed_at(i)),
            ..self
        }
    }

    pub open spec fn all_settled(self) -> bool {
        forall|i: int| 0 <= i < self.len() ==> result_settled(#[trigger] self.results[i])
    }

    pub open spec fn ready(self, i: int) -> bool {
        !self.taken[i] && holds(self.results[i], Status::Pending)
    }

    /// The first job at or after `from` that is ready.
    pub open spec fn first_ready(self, from: int) -> Option<int>
        decreases self.len() - from,
    {
        if from < 0 || from >= self.len() {
            None
        } else if self.ready(from) {
            Some(from)
        } else {
            self.first_ready(from + 1)
        }
    }

    /// The job a take hands out: none when all is settled, else the first ready one.
    pub open spec fn pick(self) -> Option<int> {
        let r = self.refresh();
        if r.all_settled() {
            None
        } else {
            r.first_ready(0)
        }
    }

    /// The scheduler after a take.
    pub open spec fn after_take(self) -> SchedulerView {
        let r = self.refresh();
        match self.pick() {
            Some(i) => SchedulerView {
                taken: r.taken.update(i, true),
                results: r.results.update(i, Ok(Status::InProgress)),
                ..r
            },
            None => r,
        }
    }

    /// The scheduler after the result of job `i` is recorded; only a job in progress
    /// takes a result.
    pub open spec fn after_record(self, i: int, res: JobResult) -> SchedulerView {
        if 0 <= i < self.len() && holds(self.results[i], Status::InProgress) {
            SchedulerView { results: self.results.update(i, res), ..self }
        } else {
            self
        }
    }

    pub open spec fn step(self, e: Event) -> SchedulerView {
        match e {
            Event::Take => self.after_take(),
            Event::Record(i, res) => self.after_record(i as int, res),
        }
    }

    /// The scheduler after the events, in order.
    pub open spec fn steps(self, es: Seq<Event>) -> SchedulerView
        decreases es.len(),
    {
        if es.len() == 0 {
            self
        } else {
            self.steps(es.drop_last()).step(es.last())
        }
    }

    /// What holds in every state of a run: a job left in the list is pending, blocked or
    /// skipped, and pending only when its needs are done; a taken job had a true guard and
    /// is in progress or settled.
    pub open spec fn inv(self) -> bool {
        &&& self.wf()
        &&& forall|j: int|
            0 <= j < self.len() && !#[trigger] self.taken[j] ==> {
                ||| holds(self.results[j], Status::Pending)
                ||| holds(self.results[j], Status::Blocked)
                ||| holds(self.results[j], Status::Skipped)
            }
        &&& forall|j: int|
            0 <= j < self.len() && !#[trigger] self.taken[j] && holds(self.results[j], Status::Pending)
                ==> self.needs_done(j)
        &&& forall|j: int| 0 <= j < self.len() && #[trigger] self.taken[j] ==> self.when[j]
        &&& forall|j: int|
            0 <= j < self.len() && #[trigger] self.taken[j] ==> holds(self.results[j], Status::InProgress)
                || result_settled(self.results[j])
    }
}

/// A record event carries a settled result, as a finished job has.
pub open spec fn settling(e: Event) -> bool {
    match e {
        Event::Take => true,
        Event::Record(_, res) => result_settled(res),
    }
}

impl View for Scheduler {
    type V = SchedulerView;

    closed spec fn view(&self) -> SchedulerView {
        SchedulerView {
            names: self.names@.map_values(|s: String| s@),
            needs: self.needs@.map_values(|v: Vec<usize>| v@),
            when: self.guards@,
            taken: self.taken@,
            results: self.results@,
        }
    }
}

/// No two jobs have the same name.
pub open spec fn names_distinct(jobs: Seq<JobInfo>) -> bool {
    forall|i: int, j: int| 0 <= i < j < jobs.len() ==> jobs[i].name@ != jobs[j].name@
}

/// Some job has this name.
pub open spec fn named(jobs: Seq<JobInfo>, name: Seq<char>) -> bool {
    exists|j: int| 0 <= j < jobs.len() && jobs[j].name@ == name
}

/// Every name that a job needs is the name of a job.
pub open spec fn needs_resolve(jobs: Seq<JobInfo>) -> bool {
    forall|i: int, k: int|
        0 <= i < jobs.len() && 0 <= k < jobs[i].needs@.len() ==> named(jobs, #[trigger] jobs[i].needs@[k]@)
}

/// The state a run starts in: nothing taken, a job with needs blocked and any other pending.
pub open spec fn initial(jobs: Seq<JobInfo>, v: SchedulerView) -> bool {
    &&& v.wf()
    &&& v.len() == jobs.len()
    &&& forall|i: int|
        0 <= i < jobs.len() ==> {
            &&& v.names[i] == (#[trigger] jobs[i]).name@
            &&& v.when[i] == jobs[i].when
            &&& !v.taken[i]
            &&& v.results[i] == if jobs[i].needs@.len() == 0 {
                Ok::<Status, jobs::Error>(Status::Pending)
            } else {
                Ok::<Status, jobs::Error>(Status::Blocked)
            }
            &&& v.needs[i].len() == jobs[i].needs@.len()
            &&& forall|k: int|
                0 <= k < jobs[i].needs@.len() ==> jobs[#[trigger] v.needs[i][k] as int].name@
                    == jobs[i].needs@[k]@
        }
}

fn find_job(jobs: &Vec<JobInfo>, name: &String) -> (r: Option<usize>)
    ensures
        match r {
            Some(j) => j < jobs@.len() && jobs@[j as int].name@ == name@,
            None => !named(jobs@, name@),
        },
{
    let mut j: usize = 0;
    while j < jobs.len()
        invariant
            j <= jobs@.len(),
            forall|a: int| 0 <= a < j ==> jobs@[a].name@ != name@,
        decreases jobs@.len() - j,
    {
        if jobs[j].name == *name {
            return Some(j);
        }
        j = j + 1;
    }
    None
}

impl Scheduler {
    /// Starts a run of the jobs: each one with needs is blocked, any other pending.
    /// Fails when two jobs share a name, or a job needs a name that no job has.
    pub fn new(jobs: &Vec<JobInfo>) -> (r: Result<Scheduler, Error>)
        ensures
            r is Ok <==> names_distinct(jobs@) && needs_resolve(jobs@),
            r is Ok ==> initial(jobs@, r->Ok_0@) && r->Ok_0@.inv(),
            r matches Err(Error::DuplicateName(n)) ==> exists|i: int, j: int|
                0 <= i < j < jobs@.len() && jobs@[i].name@ == n@ && jobs@[j].name@ == n@,
            r matches Err(Error::UnknownNeed { job, need }) ==> names_distinct(jobs@) && !named(jobs@, need@)
                && exists|i: int, k: int|
                0 <= i < jobs@.len() && 0 <= k < jobs@[i].needs@.len() && jobs@[i].name@ == job@
                    && jobs@[i].needs@[k]@ == need@,
    {
        let n = jobs.len();
        let mut i: usize = 0;
        while i < n
            invariant
                n == jobs@.len(),
                i <= n,
                forall|a: int, b: int| 0 <= a < b < i ==> jobs@[a].name@ != jobs@[b].name@,
            decreases n - i,
        {
            let mut j: usize = 0;
            while j < i
                invariant
                    n == jobs@.len(),
                    j <= i < n,
                    forall|a: int| 0 <= a < j ==> jobs@[a].name@ != jobs@[i as int].name@,
                decreases i - j,
            {
                if jobs[j].name == jobs[i].name {
                    return Err(Error::DuplicateName(jobs[i].name.clone()));
                }
                j = j + 1;
            }
            i = i + 1;
        }
        let mut names: Vec<String> = Vec::new();
        let mut needs: Vec<Vec<usize>> = Vec::new();
        let mut guards: Vec<bool> = Vec::new();
        let mut taken: Vec<bool> = Vec::new();
        let mut results: Vec<JobResult> = Vec::new();
        i = 0;
        while i < n
            invariant
                n == jobs@.len(),
                i <= n,
                names_distinct(jobs@),
                forall|a: int, b: int| 0 <= a < i && 0 <= b < jobs@[a].needs@.len() ==> named(jobs@, #[trigger] jobs@[a].needs@[b]@),
                names@.len() == i,
                needs@.len() == i,
                guards@.len() == i,
                taken@.len() == i,
                results@.len() == i,
                forall|a: int| 0 <= a < i ==> (#[trigger] names@[a])@ == jobs@[a].name@,
                forall|a: int| 0 <= a < i ==> #[trigger] guards@[a] == jobs@[a].when,
                forall|a: int| 0 <= a < i ==> !#[trigger] taken@[a],
                forall|a: int| 0 <= a < i ==> #[trigger] results@[a] == if jobs@[a].needs@.len() == 0 {
                        Ok::<Status, jobs::Error>(Status::Pending)
                    } else {
                        Ok::<Status, jobs::Error>(Status::Blocked)
                    },
                forall|a: int| 0 <= a < i ==> (#[trigger] needs@[a])@.len() == jobs@[a].needs@.len(),
                forall|a: int, k: int| 0 <= a < i && 0 <= k < jobs@[a].needs@.len() ==> #[trigger] needs@[a]@[k] < n
                        && jobs@[needs@[a]@[k] as int].name@ == jobs@[a].needs@[k]@,
            decreases n - i,
        {
            let job = &jobs[i];
            let mut row: Vec<usize> = Vec::new();
            let mut k: usize = 0;
            while k < job.needs.len()
                invariant
                    n == jobs@.len(),
                    i < n,
                    *job == jobs@[i as int],
                    names_distinct(jobs@),
                    k <= job.needs@.len(),
                    row@.len() == k,
                    forall|b: int| 0 <= b < k ==> named(jobs@, #[trigger] job.needs@[b]@),
                    forall|b: int| 0 <= b < k ==> #[trigger] row@[b] < n && jobs@[row@[b] as int].name@ == job.needs@[b]@,
                decreases job.needs@.len() - k,
            {
                match find_job(jobs, &job.needs[k]) {
                    Some(j) => {
                        row.push(j);
                    },
                    None => {
                        return Err(Error::UnknownNeed { job: job.name.clone(), need: job.needs[k].clone() });
                    },
                }
                k = k + 1;
            }
            names.push(job.name.clone());
            needs.push(row);
            guards.push(job.when);
            taken.push(false);
            if job.needs.len() == 0 {
                results.push(Ok(Status::Pending));
            } else {
                results.push(Ok(Status::Blocked));
            }
            i = i + 1;
        }
        let s = Scheduler { names, needs, guards, taken, results };
        proof {
            let v = s@;
            assert forall|a: int| 0 <= a < n implies v.names[a] == (#[trigger] jobs@[a]).name@ && v.needs[a] == needs@[a]@ by {}
        }
        Ok(s)
    }
}


impl Scheduler {
    #[verifier::type_invariant]
    spec fn well_formed(self) -> bool {
        self@.wf()
    }

    /// The number of jobs.
    pub fn len(&self) -> (r: usize)
        ensures
            r == self@.len(),
    {
        self.results.len()
    }

    /// The name of job `i`.
    pub fn name(&self, i: usize) -> (r: &String)
        requires
            i < self@.len(),
        ensures
            r@ == self@.names[i as int],
    {
        proof {
            use_type_invariant(self);
        }
        &self.names[i]
    }

    /// The status or error of job `i`.
    pub fn result(&self, i: usize) -> (r: &JobResult)
        requires
            i < self@.len(),
        ensures
            *r == self@.results[i as int],
    {
        &self.results[i]
    }

    /// Whether every job is settled.
    pub fn is_all_settled(&self) -> (r: bool)
        ensures
            r == self@.all_settled(),
    {
        let mut i: usize = 0;
        while i < self.results.len()
            invariant
                i <= self@.len(),
                forall|a: int| 0 <= a < i ==> result_settled(#[trigger] self@.results[a]),
            decreases self@.len() - i,
        {
            if !is_result_settled(&self.results[i]) {
                return false;
            }
            i = i + 1;
        }
        true
    }

    /// Whether every job that job `i` needs is done, by the statuses as they stand.
    fn needs_done_now(&self, i: usize) -> (r: bool)
        requires
            i < self@.len(),
        ensures
            r == forall|k: int| 0 <= k < self@.needs[i as int].len() ==> result_done(#[trigger] self@.results[self@.needs[i as int][k] as int]),
    {
        proof {
            use_type_invariant(self);
        }
        let row = &self.needs[i];
        assert(row@ == self@.needs[i as int]);
        let mut k: usize = 0;
        while k < row.len()
            invariant
                row@ == self@.needs[i as int],
                i < self@.len(),
                self@.wf(),
                k <= row@.len(),
                forall|b: int| 0 <= b < k ==> result_done(#[trigger] self@.results[self@.needs[i as int][b] as int]),
            decreases row@.len() - k,
        {
            let j = row[k];
            assert(j < self@.len());
            if !is_result_done(&self.results[j]) {
                return false;
            }
            k = k + 1;
        }
        true
    }

    /// Looks again at every job left in the list (a false guard skips it, done needs make a
    /// blocked one pending), then hands out the first pending one, which is then in
    /// progress. `None` when every job is settled or none is ready: what is left is in
    /// progress elsewhere, or can never run.
    pub fn take(&mut self) -> (r: Option<usize>)
        ensures
            final(self)@ == old(self)@.after_take(),
            r == match old(self)@.pick() {
                Some(j) => Some(j as usize),
                None => None::<usize>,
            },
            r is Some ==> old(self)@.pick() == Some(r->0 as int),
    {
        proof {
            use_type_invariant(&*self);
        }
        let ghost v0 = self@;
        let n = self.results.len();
        let mut i: usize = 0;
        while i < n
            invariant
                n == v0.len(),
                v0.wf(),
                i <= n,
                self@.names == v0.names,
                self@.needs == v0.needs,
                self@.when == v0.when,
                self@.taken == v0.taken,
                self@.results.len() == n,
                forall|a: int| 0 <= a < i ==> #[trigger] self@.results[a] == v0.skipped_at(a),
                forall|a: int| i <= a < n ==> #[trigger] self@.results[a] == v0.results[a],
            decreases n - i,
        {
            if !self.taken[i] && !self.guards[i] {
                self.results[i] = Ok(Status::Skipped);
            }
            i = i + 1;
        }
        i = 0;
        while i < n
            invariant
                n == v0.len(),
                v0.wf(),
                i <= n,
                self@.names == v0.names,
                self@.needs == v0.needs,
                self@.when == v0.when,
                self@.taken == v0.taken,
                self@.results.len() == n,
                forall|a: int| 0 <= a < i ==> #[trigger] self@.results[a] == v0.refreshed_at(a),
                forall|a: int| i <= a < n ==> #[trigger] self@.results[a] == v0.skipped_at(a),
            decreases n - i,
        {
            let blocked = match &self.results[i] {
                Ok(Status::Blocked) => true,
                _ => false,
            };
            if !self.taken[i] && blocked {
                let ready = self.needs_done_now(i);
                proof {
                    let row = v0.needs[i as int];
                    assert forall|k: int| 0 <= k < row.len() implies
                        result_done(#[trigger] self@.results[row[k] as int])
                            == result_done(v0.skipped_at(row[k] as int)) by {
                        let j = row[k] as int;
                        assert(0 <= j < n);
                        assert(result_done(v0.refreshed_at(j)) == result_done(v0.skipped_at(j)));
                    }
                    if ready {
                        assert forall|k: int| 0 <= k < row.len() implies result_done(
                            #[trigger] v0.skipped_at(row[k] as int),
                        ) by {
                            assert(result_done(self@.results[row[k] as int]));
                        }
                    } else {
                        let k = choose|k: int| 0 <= k < row.len() && !result_done(#[trigger] self@.results[row[k] as int]);
                        assert(!result_done(v0.skipped_at(row[k] as int)));
                    }
                    assert(ready == v0.needs_done(i as int));
                }
                if ready {
                    self.results[i] = Ok(Status::Pending);
                }
            }
            i = i + 1;
        }
        let ghost r0 = v0.refresh();
        proof {
            assert(self@.results =~= r0.results);
            assert(self@ == r0);
        }
        proof {
            assert(r0.wf());
        }
        if self.is_all_settled() {
            return None;
        }
        let mut j: usize = 0;
        while j < n
            invariant
                n == v0.len(),
                j <= n,
                v0.wf(),
                r0 == v0.refresh(),
                v0 == old(self)@,
                r0.len() == n,
                r0.wf(),
                !r0.all_settled(),
                self.taken@.len() == n,
                self@ == r0,
                r0.first_ready(0) == r0.first_ready(j as int),
            decreases n - j,
        {
            let pending = match &self.results[j] {
                Ok(Status::Pending) => true,
                _ => false,
            };
            if !self.taken[j] && pending {
                proof {
                    assert(r0.ready(j as int));
                    assert(r0.first_ready(j as int) == Some(j as int));
                    assert(v0.pick() == Some(j as int));
                }
                self.taken[j] = true;
                self.results[j] = Ok(Status::InProgress);
                proof {
                    assert(self@.taken =~= r0.taken.update(j as int, true));
                    assert(self@.results =~= r0.results.update(j as int, Ok(Status::InProgress)));
                    assert(self@ == v0.after_take());
                }
                return Some(j);
            }
            j = j + 1;
        }
        None
    }

    /// Stores the result of job `i`, which a take handed out; a job not in progress keeps
    /// what it has.
    pub fn record(&mut self, i: usize, result: JobResult)
        ensures
            final(self)@ == old(self)@.after_record(i as int, result),
    {
        proof {
            use_type_invariant(&*self);
        }
        if i < self.results.len() {
            let running = match &self.results[i] {
                Ok(Status::InProgress) => true,
                _ => false,
            };
            if running {
                self.results[i] = result;
                proof {
                    assert(self@.results =~= old(self)@.results.update(i as int, result));
                }
            }
        }
    }
}

} // verus!
