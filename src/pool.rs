use std::collections::VecDeque;
use vstd::prelude::*;

verus! {

/// What one worker is doing.
#[derive(Clone, Copy, Debug, PartialEq, Eq, Structural)]
pub enum WorkerState {
    /// Blocked on the queue, or about to ask it for work.
    Waiting,
    /// Running the job with this ticket.
    Running(u64),
    /// Saw the queue closed and drained; its loop has ended.
    Terminated,
}

/// The number of workers of `s` that are running a job.
pub open spec fn running_count(s: Seq<WorkerState>) -> nat
    decreases s.len(),
{
    if s.len() == 0 {
        0
    } else {
        running_count(s.drop_last()) + if s.last() is Running { 1nat } else { 0nat }
    }
}

/// One worker's share of `running_count`.
pub open spec fn running_weight(w: WorkerState) -> nat {
    if w is Running { 1 } else { 0 }
}

proof fn lemma_running_count_update(s: Seq<WorkerState>, i: int, w: WorkerState)
    requires
        0 <= i < s.len(),
    ensures
        running_count(s.update(i, w)) + running_weight(s[i]) == running_count(s) + running_weight(w),
    decreases s.len(),
{
    let t = s.update(i, w);
    if i == s.len() - 1 {
        assert(t.drop_last() =~= s.drop_last());
    } else {
        lemma_running_count_update(s.drop_last(), i, w);
        assert(t.drop_last() =~= s.drop_last().update(i, w));
    }
}

proof fn lemma_running_count_zero(s: Seq<WorkerState>)
    requires
        forall|i: int| 0 <= i < s.len() ==> !(#[trigger] s[i] is Running),
    ensures
        running_count(s) == 0,
    decreases s.len(),
{
    if s.len() > 0 {
        lemma_running_count_zero(s.drop_last());
    }
}


/// What a worker is told to do next.
pub enum Action<J> {
    /// Run this job; the ticket is its place in submission order.
    Run(u64, J),
    /// Nothing is queued: block until a job is submitted or the pool closes.
    Wait,
    /// The pool is closed and its queue is empty: leave the loop.
    Exit,
}

/// Why a submission was refused.
#[derive(Clone, Copy, Debug, PartialEq, Eq, Structural)]
pub enum PoolError {
    /// Shutdown has begun: the submission side is closed.
    Closed,
}

/// A fixed set of workers sharing one FIFO queue of jobs.
///
/// Tickets number the accepted jobs in submission order from zero. The queue
/// holds the jobs that no worker has taken yet, so its front carries ticket
/// `delivered()`; each job leaves the queue for exactly one worker.
pub struct ThreadPool<J> {
    workers: Vec<WorkerState>,
    queue: VecDeque<J>,
    open: bool,
    submitted: u64,
    completed: u64,
}

impl<J> ThreadPool<J> {
    /// The state of each worker, by worker id.
    pub closed spec fn workers(self) -> Seq<WorkerState> {
        self.workers@
    }

    /// The jobs that no worker has taken yet, oldest first.
    pub closed spec fn pending(self) -> Seq<J> {
        self.queue@
    }

    /// Whether the submission side is still open.
    pub closed spec fn is_open(self) -> bool {
        self.open
    }

    /// How many jobs were accepted.
    pub closed spec fn submitted(self) -> nat {
        self.submitted as nat
    }

    /// How many jobs have run to completion.
    pub closed spec fn completed(self) -> nat {
        self.completed as nat
    }

    /// How many jobs were handed to a worker; also the ticket of the front job.
    pub open spec fn delivered(self) -> int {
        self.submitted() - self.pending().len()
    }

    /// Every worker has left its loop.
    pub open spec fn all_terminated(self) -> bool {
        forall|i: int| 0 <= i < self.workers().len() ==> #[trigger] self.workers()[i] is Terminated
    }

    /// The pool's internal invariant.
    pub open spec fn wf(self) -> bool {
        &&& self.workers().len() > 0
        &&& self.pending().len() <= self.submitted()
        &&& self.submitted() <= u64::MAX
        &&& self.completed() + running_count(self.workers()) == self.delivered()
        &&& forall|i: int|
            0 <= i < self.workers().len() && (#[trigger] self.workers()[i] is Running)
                ==> self.workers()[i]->Running_0 < self.delivered()
        &&& forall|i: int, j: int|
            0 <= i < self.workers().len() && 0 <= j < self.workers().len() && i != j
                && (#[trigger] self.workers()[i] is Running) && (#[trigger] self.workers()[j] is Running)
                ==> self.workers()[i]->Running_0 != self.workers()[j]->Running_0
        &&& forall|i: int|
            0 <= i < self.workers().len() && (#[trigger] self.workers()[i] is Terminated)
                ==> !self.is_open() && self.pending().len() == 0
    }

    /// Creates a pool of `size` workers, all waiting on an empty, open queue.
    pub fn new(size: usize) -> (r: Self)
        requires
            size > 0,
        ensures
            r.wf(),
            r.workers().len() == size,
            forall|i: int| 0 <= i < size ==> #[trigger] r.workers()[i] == WorkerState::Waiting,
            r.pending().len() == 0,
            r.is_open(),
            r.submitted() == 0,
            r.completed() == 0,
    {
        let mut workers: Vec<WorkerState> = Vec::with_capacity(size);
        let mut id: usize = 0;
        while id < size
            invariant
                id <= size,
                workers@.len() == id,
                forall|i: int| 0 <= i < id ==> #[trigger] workers@[i] == WorkerState::Waiting,
            decreases size - id,
        {
            workers.push(WorkerState::Waiting);
            id = id + 1;
        }
        proof {
            lemma_running_count_zero(workers@);
        }
        ThreadPool { workers, queue: VecDeque::new(), open: true, submitted: 0, completed: 0 }
    }

    /// Queues `job` behind every job submitted before it and returns its
    /// ticket; once shutdown has begun the job is refused and nothing changes.
    pub fn execute(&mut self, job: J) -> (r: Result<u64, PoolError>)
        requires
            old(self).wf(),
            old(self).submitted() < u64::MAX,
        ensures
            final(self).wf(),
            old(self).is_open() ==> {
                &&& r == Ok::<u64, PoolError>(old(self).submitted() as u64)
                &&& final(self).pending() == old(self).pending().push(job)
                &&& final(self).submitted() == old(self).submitted() + 1
                &&& final(self).workers() == old(self).workers()
                &&& final(self).is_open()
                &&& final(self).completed() == old(self).completed()
            },
            !old(self).is_open() ==> {
                &&& r == Err::<u64, PoolError>(PoolError::Closed)
                &&& *final(self) == *old(self)
            },
    {
        if !self.open {
            return Err(PoolError::Closed);
        }
        let ticket = self.submitted;
        self.queue.push_back(job);
        self.submitted = self.submitted + 1;
        Ok(ticket)
    }

    /// Decides what the waiting worker `id` does next. A queued job goes to
    /// it and leaves the queue; with nothing queued it waits while the pool
    /// is open and terminates once the pool is closed.
    pub fn next_action(&mut self, id: usize) -> (r: Action<J>)
        requires
            old(self).wf(),
            id < old(self).workers().len(),
            old(self).workers()[id as int] == WorkerState::Waiting,
        ensures
            final(self).wf(),
            final(self).submitted() == old(self).submitted(),
            final(self).completed() == old(self).completed(),
            final(self).is_open() == old(self).is_open(),
            old(self).pending().len() > 0 ==> {
                &&& r == Action::Run(old(self).delivered() as u64, old(self).pending()[0])
                &&& final(self).pending() == old(self).pending().drop_first()
                &&& final(self).workers() == old(self).workers().update(
                    id as int,
                    WorkerState::Running(old(self).delivered() as u64),
                )
            },
            old(self).pending().len() == 0 && old(self).is_open() ==> {
                &&& r is Wait
                &&& *final(self) == *old(self)
            },
            old(self).pending().len() == 0 && !old(self).is_open() ==> {
                &&& r is Exit
                &&& final(self).pending() == old(self).pending()
                &&& final(self).workers() == old(self).workers().update(
                    id as int,
                    WorkerState::Terminated,
                )
            },
    {
        let ghost before = *self;
        if self.queue.len() == 0 {
            if self.open {
                return Action::Wait;
            }
            self.workers.set(id, WorkerState::Terminated);
            proof {
                lemma_running_count_update(before.workers@, id as int, WorkerState::Terminated);
            }
            return Action::Exit;
        }
        let ticket = self.submitted - self.queue.len() as u64;
        let job = self.queue.pop_front().unwrap();
        self.workers.set(id, WorkerState::Running(ticket));
        proof {
            lemma_running_count_update(before.workers@, id as int, WorkerState::Running(ticket));
            assert(self.queue@ =~= before.queue@.drop_first());
        }
        Action::Run(ticket, job)
    }

    /// Records that worker `id` finished its job and waits again.
    pub fn finish(&mut self, id: usize)
        requires
            old(self).wf(),
            id < old(self).workers().len(),
            old(self).workers()[id as int] is Running,
        ensures
            final(self).wf(),
            final(self).workers() == old(self).workers().update(id as int, WorkerState::Waiting),
            final(self).completed() == old(self).completed() + 1,
            final(self).pending() == old(self).pending(),
            final(self).submitted() == old(self).submitted(),
            final(self).is_open() == old(self).is_open(),
    {
        let ghost before = *self;
        proof {
            lemma_running_count_update(before.workers@, id as int, WorkerState::Waiting);
        }
        self.workers.set(id, WorkerState::Waiting);
        self.completed = self.completed + 1;
    }

    /// Closes the submission side: from now on jobs are refused, and workers
    /// terminate once the queue is drained. Closing twice changes nothing.
    pub fn shutdown(&mut self)
        requires
            old(self).wf(),
        ensures
            final(self).wf(),
            !final(self).is_open(),
            final(self).workers() == old(self).workers(),
            final(self).pending() == old(self).pending(),
            final(self).submitted() == old(self).submitted(),
            final(self).completed() == old(self).completed(),
    {
        self.open = false;
    }

    /// The number of workers, fixed when the pool was made.
    pub fn size(&self) -> (r: usize)
        ensures
            r == self.workers().len(),
    {
        self.workers.len()
    }

    /// What worker `id` is doing.
    pub fn worker_state(&self, id: usize) -> (r: WorkerState)
        requires
            id < self.workers().len(),
        ensures
            r == self.workers()[id as int],
    {
        self.workers[id]
    }

    /// Whether jobs are still accepted.
    pub fn accepts_jobs(&self) -> (r: bool)
        ensures
            r == self.is_open(),
    {
        self.open
    }

    /// How many jobs wait in the queue.
    pub fn pending_count(&self) -> (r: usize)
        ensures
            r == self.pending().len(),
    {
        self.queue.len()
    }

    /// How many jobs were accepted.
    pub fn submitted_count(&self) -> (r: u64)
        ensures
            r == self.submitted(),
    {
        self.submitted
    }

    /// How many jobs have run to completion.
    pub fn completed_count(&self) -> (r: u64)
        ensures
            r == self.completed(),
    {
        self.completed
    }

    /// Whether every worker has left its loop, so that teardown may finish.
    pub fn is_finished(&self) -> (r: bool)
        ensures
            r == self.all_terminated(),
    {
        let mut id: usize = 0;
        while id < self.workers.len()
            invariant
                id <= self.workers@.len(),
                forall|i: int| 0 <= i < id ==> #[trigger] self.workers@[i] is Terminated,
            decreases self.workers@.len() - id,
        {
            if self.workers[id] != WorkerState::Terminated {
                return false;
            }
            id = id + 1;
        }
        true
    }
}


/// A worker leaves its loop only once shutdown has begun and the queue is
/// empty: no job that was accepted is left behind by a terminated worker.
pub proof fn lemma_termination_follows_drain<J>(p: ThreadPool<J>, id: int)
    requires
        p.wf(),
        0 <= id < p.workers().len(),
        p.workers()[id] is Terminated,
    ensures
        !p.is_open(),
        p.pending().len() == 0,
{
}

/// Once every worker has terminated, every accepted job has run to
/// completion exactly once: the completed count equals the submitted count
/// and nothing is queued or running.
pub proof fn lemma_teardown_completes_every_job<J>(p: ThreadPool<J>)
    requires
        p.wf(),
        p.all_terminated(),
    ensures
        p.completed() == p.submitted(),
        p.pending().len() == 0,
        !p.is_open(),
        forall|i: int| 0 <= i < p.workers().len() ==> !(#[trigger] p.workers()[i] is Running),
{
    assert(p.workers()[0] is Terminated);
    assert forall|i: int| 0 <= i < p.workers().len() implies !(#[trigger] p.workers()[i] is Running) by {
        assert(p.workers()[i] is Terminated);
    }
    lemma_running_count_zero(p.workers());
}

/// No job is held by two workers: two different workers never run the same
/// ticket, and a running ticket lies before every ticket still queued, so a
/// job taken from the queue is never seen there again.
pub proof fn lemma_delivery_is_exclusive<J>(p: ThreadPool<J>, i: int, j: int)
    requires
        p.wf(),
        0 <= i < p.workers().len(),
        0 <= j < p.workers().len(),
        i != j,
        p.workers()[i] is Running,
        p.workers()[j] is Running,
    ensures
        p.workers()[i]->Running_0 != p.workers()[j]->Running_0,
        p.workers()[i]->Running_0 < p.delivered(),
        p.workers()[j]->Running_0 < p.delivered(),
{
}

} // verus!
