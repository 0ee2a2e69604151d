//! The scheduler: which job is claimed next.
//!
//! A job can be claimed while it is new and none of its dependencies holds
//! it back. A dependency holds back while it is below started: a job waits
//! until every job that it depends on has at least been started, not until
//! it has ended. Claiming marks the job as started in the same move, so
//! that it cannot be claimed again.

use vstd::prelude::*;
use crate::models::{
    jobs_view,
    Job,
    JobDependency,
    JobResults,
    JobResultsView,
    JobStatus,
    JobView,
};

verus! {

/// The jobs of the store and the edges of their dependency graph.
#[derive(Debug)]
pub struct JobTable {
    pub jobs: Vec<Job>,
    pub dependencies: Vec<JobDependency>,
}

/// A `JobTable` as sequences.
pub struct JobTableView {
    pub jobs: Seq<JobView>,
    pub dependencies: Seq<JobDependency>,
}

impl View for JobTable {
    type V = JobTableView;

    open spec fn view(&self) -> JobTableView {
        JobTableView { jobs: jobs_view(self.jobs@), dependencies: self.dependencies@ }
    }
}

/// Whether `job` is the job `dependency_id` and is below started.
pub open spec fn holds_back(job: JobView, dependency_id: i32) -> bool {
    job.id == dependency_id && job.status < JobStatus::Started.code()
}

/// Whether the job `dependency_id` is among `jobs` and is below started.
pub open spec fn pending(jobs: Seq<JobView>, dependency_id: i32) -> bool {
    exists|d: int| 0 <= d < jobs.len() && holds_back(#[trigger] jobs[d], dependency_id)
}

/// Whether `edge` is a dependency of the job `job_id` that holds it back.
pub open spec fn blocks(jobs: Seq<JobView>, edge: JobDependency, job_id: i32) -> bool {
    edge.job_id == job_id && pending(jobs, edge.dependency_id)
}

impl JobTableView {
    /// Whether a dependency holds the job `job_id` back.
    pub open spec fn blocked(self, job_id: i32) -> bool {
        exists|e: int|
            0 <= e < self.dependencies.len() && blocks(
                self.jobs,
                #[trigger] self.dependencies[e],
                job_id,
            )
    }

    /// Whether the job at place `i` can be claimed.
    pub open spec fn eligible(self, i: int) -> bool {
        &&& 0 <= i < self.jobs.len()
        &&& self.jobs[i].status == JobStatus::New.code()
        &&& !self.blocked(self.jobs[i].id)
    }

    /// The first place below `n` whose job can be claimed, if there is one.
    pub open spec fn first_eligible(self, n: nat) -> Option<int>
        decreases n,
    {
        if n == 0 {
            None
        } else {
            match self.first_eligible((n - 1) as nat) {
                Some(i) => Some(i),
                None => if self.eligible(n - 1) {
                    Some(n - 1)
                } else {
                    None
                },
            }
        }
    }

    /// The place of the job that is claimed next, if one can be claimed:
    /// the first in the order of the table.
    pub open spec fn next_eligible(self) -> Option<int> {
        self.first_eligible(self.jobs.len())
    }

    /// The table after a claim, and the job that was claimed, as it is
    /// after the claim.
    pub open spec fn claim(self) -> (JobTableView, Option<JobView>) {
        match self.next_eligible() {
            None => (self, None),
            Some(i) => (
                JobTableView {
                    jobs: with_started(self.jobs, self.jobs[i].id),
                    dependencies: self.dependencies,
                },
                Some(started(self.jobs[i])),
            ),
        }
    }

    /// The table after the job `id` was given its last status and its
    /// results.
    pub open spec fn finished(self, id: i32, status: i16, results: JobResultsView) -> JobTableView {
        JobTableView {
            jobs: self.jobs.map_values(
                |j: JobView|
                    if j.id == id {
                        JobView { status, results: Some(results), ..j }
                    } else {
                        j
                    },
            ),
            dependencies: self.dependencies,
        }
    }
}

/// `job`, started.
pub open spec fn started(job: JobView) -> JobView {
    JobView { status: JobStatus::Started.code(), ..job }
}

/// `jobs` with the job `id` started.
pub open spec fn with_started(jobs: Seq<JobView>, id: i32) -> Seq<JobView> {
    jobs.map_values(
        |j: JobView|
            if j.id == id {
                started(j)
            } else {
                j
            },
    )
}

fn is_pending(jobs: &Vec<Job>, dependency_id: i32) -> (b: bool)
    ensures
        b == pending(jobs_view(jobs@), dependency_id),
{
    let ghost all = jobs_view(jobs@);
    let mut d: usize = 0;
    while d < jobs.len()
        invariant
            d <= jobs.len(),
            all == jobs_view(jobs@),
            forall|k: int| 0 <= k < d ==> !holds_back(#[trigger] all[k], dependency_id),
        decreases jobs.len() - d,
    {
        if jobs[d].id == dependency_id && jobs[d].status < 1 {
            assert(holds_back(all[d as int], dependency_id));
            return true;
        }
        d += 1;
    }
    false
}

impl JobTable {
    /// Whether a dependency holds the job `job_id` back.
    pub fn is_blocked(&self, job_id: i32) -> (b: bool)
        ensures
            b == self@.blocked(job_id),
    {
        let mut e: usize = 0;
        while e < self.dependencies.len()
            invariant
                e <= self.dependencies.len(),
                forall|k: int|
                    0 <= k < e ==> !blocks(self@.jobs, #[trigger] self@.dependencies[k], job_id),
            decreases self.dependencies.len() - e,
        {
            let edge = self.dependencies[e];
            if edge.job_id == job_id && is_pending(&self.jobs, edge.dependency_id) {
                assert(blocks(self@.jobs, self@.dependencies[e as int], job_id));
                return true;
            }
            e += 1;
        }
        false
    }

    /// Claims the next job that can be claimed: marks it as started, and
    /// returns it as it then is. Returns `None`, and changes nothing, where
    /// no job can be claimed.
    pub fn claim_next(&mut self) -> (r: Option<Job>)
        ensures
            final(self)@ == old(self)@.claim().0,
            match old(self)@.claim().1 {
                Some(job) => r matches Some(claimed) && claimed@ == job,
                None => r is None,
            },
    {
        let mut i: usize = 0;
        while i < self.jobs.len()
            invariant
                i <= self.jobs.len(),
                *self == *old(self),
                self@.first_eligible(i as nat) is None,
            decreases self.jobs.len() - i,
        {
            if self.jobs[i].status == 0 && !self.is_blocked(self.jobs[i].id) {
                proof {
                    lemma_first_eligible_stays(self@, (i + 1) as nat, self@.jobs.len());
                }
                let id = self.jobs[i].id;
                self.start(id);
                assert(self@.jobs.len() == self.jobs.len());
                assert(self@.jobs[i as int] == self.jobs[i as int]@);
                return Some(self.jobs[i].clone());
            }
            i += 1;
        }
        None
    }

    /// Marks the job `id` as started.
    fn start(&mut self, id: i32)
        ensures
            final(self)@.jobs == with_started(old(self)@.jobs, id),
            final(self)@.dependencies == old(self)@.dependencies,
    {
        let ghost before = self@.jobs;
        let mut k: usize = 0;
        while k < self.jobs.len()
            invariant
                k <= self.jobs.len(),
                self.jobs.len() == old(self).jobs.len(),
                self.dependencies == old(self).dependencies,
                before == old(self)@.jobs,
                forall|j: int| 0 <= j < k ==> self.jobs[j]@ == with_started(before, id)[j],
                forall|j: int| k <= j < self.jobs.len() ==> self.jobs[j]@ == before[j],
            decreases self.jobs.len() - k,
        {
            if self.jobs[k].id == id {
                self.jobs[k].status = 1;
            }
            k += 1;
        }
    }

    /// Gives the job `id` its last status and its results.
    pub fn finish(&mut self, id: i32, status: JobStatus, results: &JobResults)
        ensures
            final(self)@ == old(self)@.finished(id, status.code(), results@),
    {
        let ghost before = self@.jobs;
        let ghost after = self@.finished(id, status.code(), results@).jobs;
        let code = status.to_db();
        let mut k: usize = 0;
        while k < self.jobs.len()
            invariant
                k <= self.jobs.len(),
                self.jobs.len() == old(self).jobs.len(),
                self.dependencies == old(self).dependencies,
                before == old(self)@.jobs,
                after == old(self)@.finished(id, status.code(), results@).jobs,
                code == status.code(),
                forall|j: int| 0 <= j < k ==> self.jobs[j]@ == after[j],
                forall|j: int| k <= j < self.jobs.len() ==> self.jobs[j]@ == before[j],
            decreases self.jobs.len() - k,
        {
            if self.jobs[k].id == id {
                self.jobs[k].status = code;
                self.jobs[k].results = Some(results.clone());
            }
            k += 1;
        }
        assert(self@.jobs =~= after);
    }
}

/// The table and the jobs handed out after `n` claims in a row, each entry
/// `None` where nothing could be claimed.
pub open spec fn claims(t: JobTableView, n: nat) -> (JobTableView, Seq<Option<JobView>>)
    decreases n,
{
    if n == 0 {
        (t, Seq::empty())
    } else {
        let before = claims(t, (n - 1) as nat);
        let next = before.0.claim();
        (next.0, before.1.push(next.1))
    }
}

/// Whether no job `id` of the table is new.
pub open spec fn settled(t: JobTableView, id: i32) -> bool {
    forall|k: int| 0 <= k < t.jobs.len() && (#[trigger] t.jobs[k]).id == id ==> t.jobs[k].status
        != JobStatus::New.code()
}

/// Whether no two jobs of the table have the same id.
pub open spec fn unique_ids(t: JobTableView) -> bool {
    forall|a: int, b: int|
        0 <= a < b < t.jobs.len() ==> (#[trigger] t.jobs[a]).id != (#[trigger] t.jobs[b]).id
}

/// The job that is claimed next is the first, in the order of the table,
/// that can be claimed; nothing is claimed only where no job can be.
pub proof fn lemma_next_eligible(t: JobTableView)
    ensures
        match t.next_eligible() {
            Some(i) => t.eligible(i) && forall|k: int| 0 <= k < i ==> !t.eligible(k),
            None => forall|k: int| !t.eligible(k),
        },
{
    lemma_first_eligible(t, t.jobs.len());
}

proof fn lemma_first_eligible(t: JobTableView, n: nat)
    ensures
        match t.first_eligible(n) {
            Some(i) => i < n && t.eligible(i) && forall|k: int| 0 <= k < i ==> !t.eligible(k),
            None => forall|k: int| 0 <= k < n ==> !t.eligible(k),
        },
    decreases n,
{
    if n > 0 {
        lemma_first_eligible(t, (n - 1) as nat);
    }
}

/// A job is claimed only while it is new, and never while one of its
/// dependencies is below started: every job that it depends on has at
/// least been started.
pub proof fn lemma_claim_respects_dependencies(t: JobTableView, e: int, d: int)
    requires
        t.claim().1 is Some,
        0 <= e < t.dependencies.len(),
        0 <= d < t.jobs.len(),
        t.dependencies[e].job_id == t.claim().1->0.id,
        t.jobs[d].id == t.dependencies[e].dependency_id,
    ensures
        t.jobs[t.next_eligible()->0].status == JobStatus::New.code(),
        !(t.jobs[d].status < JobStatus::Started.code()),
{
    lemma_next_eligible(t);
    let i = t.next_eligible()->0;
}

/// A claim leaves a job that is not new as it is, unless it is the job that
/// is claimed; and a job that was claimed is started.
proof fn lemma_claim_settles(t: JobTableView, id: i32)
    ensures
        settled(t, id) ==> settled(t.claim().0, id),
        t.claim().1 matches Some(job) ==> settled(t.claim().0, job.id) && !settled(t, job.id)
            && job.status == JobStatus::Started.code(),
{
    lemma_next_eligible(t);
    let after = t.claim().0;
    match t.next_eligible() {
        Some(i) => {
            assert forall|k: int| 0 <= k < after.jobs.len() implies (#[trigger] after.jobs[k]).id
                == t.jobs[k].id by {}
        },
        None => {},
    }
}

/// A job that was handed out stays settled through all later claims.
proof fn lemma_claimed_stays_settled(t: JobTableView, n: nat, a: int)
    requires
        0 <= a < n,
        claims(t, n).1[a] is Some,
    ensures
        claims(t, n).1.len() == n,
        settled(claims(t, n).0, claims(t, n).1[a]->0.id),
    decreases n,
{
    lemma_claims_len(t, (n - 1) as nat);
    if a < n - 1 {
        lemma_claimed_stays_settled(t, (n - 1) as nat, a);
    }
}

proof fn lemma_claims_len(t: JobTableView, n: nat)
    ensures
        claims(t, n).1.len() == n,
    decreases n,
{
    if n > 0 {
        lemma_claims_len(t, (n - 1) as nat);
    }
}

/// Claiming is exactly once: among the jobs that any number of claims in a
/// row hand out, no id occurs twice, and each job is handed out as
/// started.
pub proof fn lemma_claim_exactly_once(t: JobTableView, n: nat, a: int, b: int)
    requires
        0 <= a < b < n,
        claims(t, n).1[a] is Some,
        claims(t, n).1[b] is Some,
    ensures
        claims(t, n).1[a]->0.id != claims(t, n).1[b]->0.id,
        claims(t, n).1[a]->0.status == JobStatus::Started.code(),
        claims(t, n).1[b]->0.status == JobStatus::Started.code(),
    decreases n,
{
    lemma_claims_len(t, (n - 1) as nat);
    let before = claims(t, (n - 1) as nat);
    if b < n - 1 {
        lemma_claim_exactly_once(t, (n - 1) as nat, a, b);
    } else {
        lemma_claimed_stays_settled(t, (n - 1) as nat, a);
        lemma_claim_settles(before.0, before.1[a]->0.id);
        lemma_started_when_claimed(t, (n - 1) as nat, a);
    }
}

proof fn lemma_started_when_claimed(t: JobTableView, n: nat, a: int)
    requires
        0 <= a < n,
        claims(t, n).1[a] is Some,
    ensures
        claims(t, n).1[a]->0.status == JobStatus::Started.code(),
    decreases n,
{
    lemma_claims_len(t, (n - 1) as nat);
    if a < n - 1 {
        lemma_started_when_claimed(t, (n - 1) as nat, a);
    }
}

/// A claim changes nothing of a job but its status, and the status only
/// from new to started or, for a job with the id of the claimed one, to
/// started.
pub proof fn lemma_claim_changes_status_only(t: JobTableView, k: int)
    requires
        0 <= k < t.jobs.len(),
    ensures
        t.claim().0.jobs.len() == t.jobs.len(),
        t.claim().0.dependencies == t.dependencies,
        t.claim().0.jobs[k] == t.jobs[k] || (t.claim().1 is Some && t.jobs[k].id
            == t.claim().1->0.id && t.claim().0.jobs[k] == started(t.jobs[k])),
{
}

/// In a table without repeated ids a claim changes one job and nothing
/// else: the claimed job goes from new to started.
pub proof fn lemma_claim_starts_one_job(t: JobTableView)
    requires
        unique_ids(t),
    ensures
        match t.next_eligible() {
            Some(i) => t.jobs[i].status == JobStatus::New.code() && t.claim().0.jobs
                == t.jobs.update(i, started(t.jobs[i])),
            None => t.claim().0 == t,
        },
{
    lemma_next_eligible(t);
}

/// Once a job that can be claimed has been found, it stays the first.
proof fn lemma_first_eligible_stays(t: JobTableView, n: nat, m: nat)
    requires
        n <= m,
        t.first_eligible(n) is Some,
    ensures
        t.first_eligible(m) == t.first_eligible(n),
    decreases m - n,
{
    if n < m {
        lemma_first_eligible_stays(t, n, (m - 1) as nat);
    }
}

} // verus!
