use std::collections::VecDeque;
use vstd::prelude::*;

use crate::job::{Job, JobState, Repository};
use crate::settings::{blacklisted, GlobalSettings};

verus! {

/// The jobs waiting for the worker, oldest first.
pub struct JobQueue {
    jobs: VecDeque<Job>,
}

impl View for JobQueue {
    type V = Seq<Job>;

    closed spec fn view(&self) -> Seq<Job> {
        self.jobs@
    }
}

/// The jobs that `n` successive pops take out of a queue holding `q`.
pub open spec fn pop_order(q: Seq<Job>, n: nat) -> Seq<Job>
    decreases n,
{
    if n == 0 || q.len() == 0 {
        seq![]
    } else {
        seq![q[0]] + pop_order(q.drop_first(), (n - 1) as nat)
    }
}

impl JobQueue {
    pub fn new() -> (r: JobQueue)
        ensures
            r@ == Seq::<Job>::empty(),
    {
        JobQueue { jobs: VecDeque::new() }
    }

    pub fn len(&self) -> (r: usize)
        ensures
            r == self@.len(),
    {
        self.jobs.len()
    }

    /// Adds a job behind all the others.
    pub fn push(&mut self, job: Job)
        ensures
            final(self)@ == old(self)@.push(job),
    {
        self.jobs.push_back(job);
    }

    /// Takes out the oldest job, if any.
    pub fn pop(&mut self) -> (r: Option<Job>)
        ensures
            old(self)@.len() == 0 ==> r is None && final(self)@ == old(self)@,
            old(self)@.len() > 0 ==> r == Some(old(self)@[0]) && final(self)@ == old(self)@.drop_first(),
    {
        self.jobs.pop_front()
    }
}

/// Handles an authenticated webhook about `repo`: a blacklisted repository is
/// acknowledged without a job; any other gets a new job at the back of the queue.
pub fn accept_webhook(repo: Repository, settings: &GlobalSettings, queue: &mut JobQueue) -> (queued:
    bool)
    ensures
        queued == !blacklisted(settings.blacklist@, repo.full_name@),
        queued ==> final(queue)@ == old(queue)@.push(
            (Job { repo, local_path: None, state: JobState::Start }),
        ),
        !queued ==> final(queue)@ == old(queue)@,
{
    if settings.is_blacklisted(repo.full_name.as_str()) {
        return false;
    }
    queue.push(Job::new(repo));
    true
}

/// Popping a queue empty gives back its jobs in the order they were pushed.
pub proof fn lemma_pops_in_push_order(q: Seq<Job>)
    ensures
        pop_order(q, q.len()) == q,
    decreases q.len(),
{
    if q.len() > 0 {
        lemma_pops_in_push_order(q.drop_first());
        assert(seq![q[0]] + q.drop_first() =~= q);
    }
}

/// Two jobs enqueued one after the other, behind any others, leave the queue in
/// that order, one right after the other.
pub proof fn lemma_jobs_leave_in_arrival_order(pending: Seq<Job>, first: Job, second: Job)
    ensures
        pop_order(pending.push(first).push(second), pending.len() + 2) == pending + seq![first, second],
{
    let q = pending.push(first).push(second);
    lemma_pops_in_push_order(q);
    assert(q =~= pending + seq![first, second]);
}

} // verus!
