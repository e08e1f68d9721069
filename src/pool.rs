//! The decision logic of a fixed-size worker pool.
//!
//! A `Dispatcher` owns the job channel (modelled as a FIFO of job tickets) and
//! the state of every worker. The threads themselves live outside this module:
//! a runtime asks the dispatcher what each worker should do next, performs that
//! action, and reports back. Jobs are identified by tickets handed out in
//! submission order, starting at zero.
use vstd::prelude::*;
use std::collections::VecDeque;

verus! {

/// Errors of the pool's own protocol.
#[derive(Debug, Clone, Copy, PartialEq, Eq, Structural)]
pub enum PoolError {
    /// A pool must have at least one worker.
    InvalidSize,
    /// The channel is closed: shutdown has begun, no job is accepted.
    Closed,
}

/// What one worker is doing.
#[derive(Debug, Clone, Copy, PartialEq, Eq, Structural)]
pub enum WorkerState {
    /// Waiting for the next job.
    Idle,
    /// Executing the job with this ticket.
    Running(u64),
    /// The channel was closed and drained; the worker has left its loop.
    Terminated,
    /// A job failed irrecoverably on this worker; it runs nothing more.
    Failed,
}

/// What an idle worker is told to do when it asks for work.
#[derive(Debug, Clone, Copy, PartialEq, Eq, Structural)]
pub enum WorkerAction {
    /// Execute the job with this ticket.
    Run(u64),
    /// Nothing is queued but the channel is open: block until something comes.
    Wait,
    /// The channel is closed and empty: leave the loop.
    Exit,
}

/// Teardown finished, but these workers had failed (ids in join order).
#[derive(Debug, PartialEq, Eq)]
pub struct TeardownFailure {
    pub failed: Vec<usize>,
}

/// The state of a pool: its workers, its queue of pending tickets and whether
/// the channel still accepts work.
pub struct Dispatcher {
    workers: Vec<WorkerState>,
    queue: VecDeque<u64>,
    open: bool,
    submitted: u64,
    joined: bool,
    delivered: Ghost<Seq<(u64, usize)>>,
}

/// The tickets of a delivery log, in delivery order.
pub open spec fn tickets_of(log: Seq<(u64, usize)>) -> Seq<u64> {
    log.map_values(|d: (u64, usize)| d.0)
}

/// The tickets `0, 1, ..., n - 1`.
pub open spec fn first_tickets(n: nat) -> Seq<u64> {
    Seq::new(n, |i: int| i as u64)
}

/// The ids among `ids` whose join reported a failure, in order.
pub open spec fn failed_ids(ids: Seq<usize>, panicked: Seq<bool>) -> Seq<usize>
    decreases ids.len(),
{
    if ids.len() == 0 || panicked.len() == 0 {
        Seq::empty()
    } else {
        let rest = failed_ids(ids.drop_last(), panicked.drop_last());
        if panicked.last() {
            rest.push(ids.last())
        } else {
            rest
        }
    }
}

/// Aggregates the outcome of joining the workers `ids`, where `panicked[i]`
/// tells whether joining `ids[i]` reported a failure. Every failure is
/// reported, once, in join order; teardown succeeds when there is none.
pub fn teardown_report(ids: &Vec<usize>, panicked: &Vec<bool>) -> (r: Result<(), TeardownFailure>)
    requires
        ids.len() == panicked.len(),
    ensures
        r is Ok <==> forall|i: int| 0 <= i < panicked.len() ==> !panicked@[i],
        r is Err ==> r->Err_0.failed@ == failed_ids(ids@, panicked@),
{
    let mut failed: Vec<usize> = Vec::new();
    let mut i: usize = 0;
    while i < ids.len()
        invariant
            i <= ids.len(),
            ids.len() == panicked.len(),
            failed@ == failed_ids(ids@.subrange(0, i as int), panicked@.subrange(0, i as int)),
            failed@.len() == 0 <==> forall|k: int| 0 <= k < i ==> !panicked@[k],
        decreases ids.len() - i,
    {
        proof {
            assert(ids@.subrange(0, i + 1).drop_last() =~= ids@.subrange(0, i as int));
            assert(panicked@.subrange(0, i + 1).drop_last() =~= panicked@.subrange(0, i as int));
        }
        if panicked[i] {
            failed.push(ids[i]);
        }
        i = i + 1;
    }
    assert(ids@.subrange(0, i as int) =~= ids@);
    assert(panicked@.subrange(0, i as int) =~= panicked@);
    if failed.len() == 0 {
        Ok(())
    } else {
        Err(TeardownFailure { failed })
    }
}

/// Exactly-once delivery: the tickets delivered so far, followed by those still
/// pending, are the accepted tickets in submission order. So no ticket is
/// delivered twice, each delivery names one worker of the pool, and once the
/// queue is drained every accepted job has been delivered exactly once.
pub proof fn lemma_exactly_once(d: &Dispatcher)
    requires
        d.wf(),
    ensures
        tickets_of(d.delivered()) + d.pending() == first_tickets(d.submitted()),
        d.pending().len() == 0 ==> tickets_of(d.delivered()) == first_tickets(d.submitted()),
        forall|i: int, j: int|
            0 <= i < j < d.delivered().len() ==> (#[trigger] d.delivered()[i]).0 != (#[trigger] d.delivered()[j]).0,
        forall|i: int| 0 <= i < d.delivered().len() ==> (#[trigger] d.delivered()[i]).1 < d.size(),
{
    let all = tickets_of(d.delivered()) + d.pending();
    assert forall|i: int, j: int| 0 <= i < j < d.delivered().len() implies (#[trigger] d.delivered()[i]).0 != (#[trigger] d.delivered()[j]).0 by {
        assert(all == first_tickets(d.submitted()));
        assert(d.submitted() <= u64::MAX);
        assert(all.len() == d.submitted());
        assert(first_tickets(d.submitted())[i] == i as u64);
        assert(first_tickets(d.submitted())[j] == j as u64);
        assert(all[i] == tickets_of(d.delivered())[i]);
        assert(all[j] == tickets_of(d.delivered())[j]);
    }
    if d.pending().len() == 0 {
        assert(tickets_of(d.delivered()) + d.pending() =~= tickets_of(d.delivered()));
    }
}

/// One call of `shutdown`: the channel ends up closed and the workers handed
/// out; the first call hands out every worker id in order, a later one hands
/// out none and changes nothing. Workers, queue and deliveries are untouched.
pub open spec fn shutdown_step(before: Dispatcher, after: Dispatcher, to_join: Seq<usize>) -> bool {
    &&& !after.is_open()
    &&& after.joined()
    &&& after.size() == before.size()
    &&& forall|w: int| 0 <= w < before.size() ==> after.worker(w) == before.worker(w)
    &&& after.pending() == before.pending()
    &&& after.submitted() == before.submitted()
    &&& after.delivered() == before.delivered()
    &&& !before.joined() ==> to_join == Seq::new(before.size(), |i: int| i as usize)
    &&& before.joined() ==> to_join.len() == 0 && after == before
}

/// Shutdown is idempotent: after a first shutdown, a second one joins no
/// worker (so none is joined twice and no failure is reported twice) and
/// leaves the pool as it was.
pub proof fn lemma_shutdown_idempotent(
    a: Dispatcher,
    b: Dispatcher,
    c: Dispatcher,
    first: Seq<usize>,
    second: Seq<usize>,
)
    requires
        shutdown_step(a, b, first),
        shutdown_step(b, c, second),
    ensures
        second.len() == 0,
        c == b,
        !a.joined() ==> first == Seq::new(a.size(), |i: int| i as usize),
{
}

impl Dispatcher {
    /// Number of workers.
    pub closed spec fn size(&self) -> nat {
        self.workers@.len()
    }

    /// The state of worker `w`.
    pub closed spec fn worker(&self, w: int) -> WorkerState {
        self.workers@[w]
    }

    /// Tickets accepted but not yet handed to a worker, oldest first.
    pub closed spec fn pending(&self) -> Seq<u64> {
        self.queue@
    }

    /// Whether the channel accepts new jobs.
    pub closed spec fn is_open(&self) -> bool {
        self.open
    }

    /// How many jobs were accepted so far (also the next ticket).
    pub closed spec fn submitted(&self) -> nat {
        self.submitted as nat
    }

    /// Whether the workers were already handed out for joining.
    pub closed spec fn joined(&self) -> bool {
        self.joined
    }

    /// Every delivery so far, as (ticket, worker) in delivery order.
    pub closed spec fn delivered(&self) -> Seq<(u64, usize)> {
        self.delivered@
    }

    /// The pool's invariant: every accepted ticket was either delivered once
    /// or is still pending, in submission order; deliveries name real
    /// workers; workers are only joined after the channel closed.
    pub closed spec fn wf(&self) -> bool {
        &&& self.workers@.len() > 0
        &&& tickets_of(self.delivered@) + self.queue@ == first_tickets(self.submitted as nat)
        &&& forall|i: int| 0 <= i < self.delivered@.len() ==> (#[trigger] self.delivered@[i]).1 < self.workers@.len()
        &&& self.joined ==> !self.open
    }

    /// Creates a pool of `worker_count` idle workers with an open, empty channel.
    /// Zero workers is a configuration error.
    pub fn new(worker_count: usize) -> (r: Result<Dispatcher, PoolError>)
        ensures
            r is Err <==> worker_count == 0,
            r is Err ==> r->Err_0 == PoolError::InvalidSize,
            r is Ok ==> {
                let d = r->Ok_0;
                &&& d.wf()
                &&& d.size() == worker_count
                &&& forall|w: int| 0 <= w < worker_count ==> d.worker(w) == WorkerState::Idle
                &&& d.is_open()
                &&& !d.joined()
                &&& d.submitted() == 0
                &&& d.pending() == Seq::<u64>::empty()
                &&& d.delivered() == Seq::<(u64, usize)>::empty()
            },
    {
        if worker_count == 0 {
            return Err(PoolError::InvalidSize);
        }
        let mut workers: Vec<WorkerState> = Vec::new();
        let mut i: usize = 0;
        while i < worker_count
            invariant
                i <= worker_count,
                workers@.len() == i,
                forall|w: int| 0 <= w < i ==> workers@[w] == WorkerState::Idle,
            decreases worker_count - i,
        {
            workers.push(WorkerState::Idle);
            i = i + 1;
        }
        let d = Dispatcher {
            workers,
            queue: VecDeque::new(),
            open: true,
            submitted: 0,
            joined: false,
            delivered: Ghost(Seq::empty()),
        };
        assert(tickets_of(d.delivered@) + d.queue@ =~= first_tickets(0));
        Ok(d)
    }

    /// Accepts a job and returns its ticket, or refuses it once shutdown has
    /// begun. A refused job is not queued and nothing else changes.
    pub fn submit(&mut self) -> (r: Result<u64, PoolError>)
        requires
            old(self).wf(),
            old(self).submitted() < u64::MAX,
        ensures
            final(self).wf(),
            old(self).is_open() ==> {
                &&& r == Ok::<u64, PoolError>(old(self).submitted() as u64)
                &&& final(self).pending() == old(self).pending().push(old(self).submitted() as u64)
                &&& final(self).submitted() == old(self).submitted() + 1
                &&& final(self).is_open()
                &&& final(self).joined() == old(self).joined()
                &&& final(self).delivered() == old(self).delivered()
                &&& final(self).size() == old(self).size()
                &&& forall|w: int| 0 <= w < old(self).size() ==> final(self).worker(w) == old(self).worker(w)
            },
            !old(self).is_open() ==> r == Err::<u64, PoolError>(PoolError::Closed) && *final(self) == *old(self),
    {
        if !self.open {
            return Err(PoolError::Closed);
        }
        let t = self.submitted;
        self.queue.push_back(t);
        self.submitted = t + 1;
        assert(tickets_of(self.delivered@) + self.queue@ =~= first_tickets(self.submitted as nat)) by {
            assert(tickets_of(self.delivered@) + self.queue@ =~= (tickets_of(self.delivered@) + old(self).queue@).push(t));
        }
        Ok(t)
    }

    /// Decides what idle worker `worker` does next: run the oldest pending job,
    /// wait while the channel is open and empty, or leave once it is closed and
    /// drained.
    pub fn next_action(&mut self, worker: usize) -> (r: WorkerAction)
        requires
            old(self).wf(),
            worker < old(self).size(),
            old(self).worker(worker as int) == WorkerState::Idle,
        ensures
            final(self).wf(),
            final(self).size() == old(self).size(),
            final(self).is_open() == old(self).is_open(),
            final(self).submitted() == old(self).submitted(),
            final(self).joined() == old(self).joined(),
            forall|w: int| 0 <= w < old(self).size() && w != worker ==> final(self).worker(w) == old(self).worker(w),
            old(self).pending().len() > 0 ==> {
                let t = old(self).pending()[0];
                &&& r == WorkerAction::Run(t)
                &&& final(self).pending() == old(self).pending().drop_first()
                &&& final(self).delivered() == old(self).delivered().push((t, worker))
                &&& final(self).worker(worker as int) == WorkerState::Running(t)
            },
            old(self).pending().len() == 0 && old(self).is_open() ==> r == WorkerAction::Wait && *final(self) == *old(self),
            old(self).pending().len() == 0 && !old(self).is_open() ==> {
                &&& r == WorkerAction::Exit
                &&& final(self).pending() == old(self).pending()
                &&& final(self).delivered() == old(self).delivered()
                &&& final(self).worker(worker as int) == WorkerState::Terminated
            },
    {
        if self.queue.len() == 0 {
            if self.open {
                return WorkerAction::Wait;
            }
            self.workers.set(worker, WorkerState::Terminated);
            return WorkerAction::Exit;
        }
        let t = self.queue.pop_front().unwrap();
        let ghost before = self.delivered@;
        self.delivered = Ghost(self.delivered@.push((t, worker)));
        self.workers.set(worker, WorkerState::Running(t));
        assert(tickets_of(self.delivered@) + self.queue@ =~= tickets_of(before) + old(self).queue@) by {
            assert(tickets_of(self.delivered@) =~= tickets_of(before).push(t));
        }
        WorkerAction::Run(t)
    }

    /// Records that worker `worker` came back from its job: idle again, or
    /// lost for good when the job failed. Nothing else changes, so a failure
    /// touches neither the other workers nor the channel.
    pub fn finish_job(&mut self, worker: usize, failed: bool)
        requires
            old(self).wf(),
            worker < old(self).size(),
            old(self).worker(worker as int) is Running,
        ensures
            final(self).wf(),
            final(self).size() == old(self).size(),
            final(self).worker(worker as int) == (if failed { WorkerState::Failed } else { WorkerState::Idle }),
            forall|w: int| 0 <= w < old(self).size() && w != worker ==> final(self).worker(w) == old(self).worker(w),
            final(self).pending() == old(self).pending(),
            final(self).is_open() == old(self).is_open(),
            final(self).submitted() == old(self).submitted(),
            final(self).joined() == old(self).joined(),
            final(self).delivered() == old(self).delivered(),
    {
        if failed {
            self.workers.set(worker, WorkerState::Failed);
        } else {
            self.workers.set(worker, WorkerState::Idle);
        }
    }

    /// Begins teardown: closes the channel (jobs already queued are still
    /// delivered) and hands out, once, the worker ids to join in id order.
    /// A second call closes nothing new and hands out no worker.
    pub fn shutdown(&mut self) -> (to_join: Vec<usize>)
        requires
            old(self).wf(),
        ensures
            final(self).wf(),
            shutdown_step(*old(self), *final(self), to_join@),
    {
        let mut to_join: Vec<usize> = Vec::new();
        if self.joined {
            return to_join;
        }
        self.open = false;
        self.joined = true;
        let n = self.workers.len();
        let mut i: usize = 0;
        while i < n
            invariant
                i <= n,
                n == self.workers@.len(),
                to_join@ == Seq::new(i as nat, |k: int| k as usize),
            decreases n - i,
        {
            to_join.push(i);
            i = i + 1;
            assert(to_join@ =~= Seq::new(i as nat, |k: int| k as usize));
        }
        to_join
    }

    /// Number of workers, fixed for the pool's lifetime.
    pub fn worker_count(&self) -> (r: usize)
        ensures
            r == self.size(),
    {
        self.workers.len()
    }

    /// Number of jobs accepted so far.
    pub fn submitted_count(&self) -> (r: u64)
        ensures
            r == self.submitted(),
    {
        self.submitted
    }

    /// The state of worker `worker`.
    pub fn worker_state(&self, worker: usize) -> (r: WorkerState)
        requires
            worker < self.size(),
        ensures
            r == self.worker(worker as int),
    {
        self.workers[worker]
    }

    /// Number of jobs accepted but not yet handed to a worker.
    pub fn pending_count(&self) -> (r: usize)
        ensures
            r == self.pending().len(),
    {
        self.queue.len()
    }

    /// Whether the channel still accepts jobs.
    pub fn accepting(&self) -> (r: bool)
        ensures
            r == self.is_open(),
    {
        self.open
    }
}

} // verus!
