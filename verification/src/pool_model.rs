//! A transition-system model of the worker pool, under which the scheduling
//! guarantees are proved: every submitted job begins execution exactly once
//! and in submission order, teardown returns only after all workers have
//! stopped and been joined, and at that point every submitted job has also
//! finished — no job is dropped and no thread is leaked.
//!
//! Jobs are identified by their submission index. The queue holds the ids not
//! yet picked up, in FIFO order; `started` records ids in the order workers
//! began them; `finished` records the ids whose run has returned. Transition
//! preconditions encode what the runtime actually guarantees: a job is
//! dequeued or a worker exits only by a worker that is not currently running
//! a job, the channel reports closure only once it is closed *and* drained,
//! and a join returns only once the joined thread has exited.

use vstd::prelude::*;
use vstd::set_lib::lemma_len_subset;

verus! {

/// One snapshot of the pool's lifetime: worker counts, the producer side, and
/// the ledger of every job's progress.
pub struct PoolState {
    /// Number of workers the pool was built with.
    pub size: nat,
    /// Whether the producer handle is still alive, so `submit` may enqueue.
    pub accepting: bool,
    /// Ids of submitted jobs no worker has picked up yet, in FIFO order.
    pub queue: Seq<nat>,
    /// Ids of jobs in the order workers began executing them.
    pub started: Seq<nat>,
    /// Ids of jobs whose execution has returned.
    pub finished: Set<nat>,
    /// Jobs submitted so far; also the id the next submission gets.
    pub submitted: nat,
    /// Workers whose loop has exited.
    pub stopped: nat,
    /// Workers the teardown path has joined.
    pub joined: nat,
}

impl PoolState {
    /// Jobs a worker is executing right now: begun but not yet returned.
    pub open spec fn in_flight(self) -> int {
        self.started.len() - self.finished.len()
    }

    /// Workers still running their loop.
    pub open spec fn live_workers(self) -> int {
        self.size - self.stopped
    }
}

/// The ids `0, 1, ..., n - 1` in order: every job submitted so far.
pub open spec fn ascending(n: nat) -> Seq<nat> {
    Seq::new(n, |i: int| i as nat)
}

/// The freshly built pool: a positive number of workers, an alive producer
/// handle, and an empty ledger.
pub open spec fn init(s: PoolState, size: nat) -> bool {
    &&& size >= 1
    &&& s == (PoolState {
        size,
        accepting: true,
        queue: Seq::<nat>::empty(),
        started: Seq::<nat>::empty(),
        finished: Set::<nat>::empty(),
        submitted: 0,
        stopped: 0,
        joined: 0,
    })
}

/// Submit one job: append its id to the queue. Only possible while the
/// producer handle is alive.
pub open spec fn submit(pre: PoolState, post: PoolState) -> bool {
    &&& pre.accepting
    &&& post == (PoolState { queue: pre.queue.push(pre.submitted), submitted: pre.submitted + 1, ..pre })
}

/// A worker begins the job at the head of the queue. The dequeuing worker is
/// one of the live workers and is not running anything, so strictly fewer
/// jobs are in flight than there are live workers.
pub open spec fn start_job(pre: PoolState, post: PoolState) -> bool {
    &&& pre.queue.len() > 0
    &&& pre.in_flight() < pre.live_workers()
    &&& post == (PoolState { queue: pre.queue.drop_first(), started: pre.started.push(pre.queue[0]), ..pre })
}

/// The run of job `j` returns on whatever worker held it.
pub open spec fn finish_job(pre: PoolState, post: PoolState, j: nat) -> bool {
    &&& pre.started.contains(j)
    &&& !pre.finished.contains(j)
    &&& post == (PoolState { finished: pre.finished.insert(j), ..pre })
}

/// Teardown begins: the producer handle is dropped, so nothing further can
/// be enqueued.
pub open spec fn close(pre: PoolState, post: PoolState) -> bool {
    &&& pre.accepting
    &&& post == (PoolState { accepting: false, ..pre })
}

/// A worker's loop exits. The channel hands out the closed signal only once
/// the producer handle is gone and every queued job has been taken, and only
/// to a worker that is idle — its own previous job, if any, has returned.
pub open spec fn stop_worker(pre: PoolState, post: PoolState) -> bool {
    &&& !pre.accepting
    &&& pre.queue.len() == 0
    &&& pre.stopped < pre.size
    &&& pre.in_flight() < pre.live_workers()
    &&& post == (PoolState { stopped: pre.stopped + 1, ..pre })
}

/// Teardown joins one more worker; the join returns only because that
/// worker's thread has already exited.
pub open spec fn join_worker(pre: PoolState, post: PoolState) -> bool {
    &&& pre.joined < pre.stopped
    &&& post == (PoolState { joined: pre.joined + 1, ..pre })
}

/// The transitions of the pool system.
pub enum PoolStep {
    Submit,
    StartJob,
    FinishJob { job: nat },
    Close,
    StopWorker,
    JoinWorker,
}

/// One step of the given kind relates `pre` to `post`.
pub open spec fn next_step(pre: PoolState, post: PoolState, step: PoolStep) -> bool {
    match step {
        PoolStep::Submit => submit(pre, post),
        PoolStep::StartJob => start_job(pre, post),
        PoolStep::FinishJob { job } => finish_job(pre, post, job),
        PoolStep::Close => close(pre, post),
        PoolStep::StopWorker => stop_worker(pre, post),
        PoolStep::JoinWorker => join_worker(pre, post),
    }
}

/// The pool takes some step from `pre` to `post`.
pub open spec fn next(pre: PoolState, post: PoolState) -> bool {
    exists|step: PoolStep| next_step(pre, post, step)
}

/// The inductive invariant of the pool system.
pub open spec fn inv(s: PoolState) -> bool {
    &&& s.size >= 1
    &&& s.started + s.queue == ascending(s.submitted)
    &&& s.finished.finite()
    &&& s.finished.subset_of(s.started.to_set())
    &&& s.in_flight() <= s.live_workers()
    &&& s.joined <= s.stopped <= s.size
    &&& s.stopped > 0 ==> !s.accepting && s.queue.len() == 0
}

/// The initial state satisfies the invariant.
pub proof fn lemma_init_inv(s: PoolState, size: nat)
    requires
        init(s, size),
    ensures
        inv(s),
{
    assert(s.started + s.queue =~= ascending(0));
    assert(s.finished.len() == 0);
}

/// In an invariant state, the jobs begun so far are exactly ids
/// `0 .. started.len()`, in order, and the queue carries the remaining ids in
/// submission order.
pub proof fn lemma_started_is_prefix(s: PoolState)
    requires
        inv(s),
    ensures
        s.started.len() + s.queue.len() == s.submitted,
        forall|i: int| 0 <= i < s.started.len() ==> #[trigger] s.started[i] == i,
        forall|i: int|
            0 <= i < s.queue.len() ==> #[trigger] s.queue[i] == s.started.len() + i,
        s.started.no_duplicates(),
{
    let all = s.started + s.queue;
    assert(all.len() == s.submitted);
    assert forall|i: int| 0 <= i < s.started.len() implies #[trigger] s.started[i] == i by {
        assert(s.started[i] == all[i]);
    }
    assert forall|i: int| 0 <= i < s.queue.len() implies #[trigger] s.queue[i] == s.started.len()
        + i by {
        assert(s.queue[i] == all[s.started.len() + i]);
    }
}

/// Every step of the system preserves the invariant.
pub proof fn lemma_next_inv(pre: PoolState, post: PoolState)
    requires
        inv(pre),
        next(pre, post),
    ensures
        inv(post),
{
    broadcast use vstd::seq_lib::group_seq_properties;
    broadcast use vstd::set::group_set_axioms;

    let step = choose|step: PoolStep| next_step(pre, post, step);
    match step {
        PoolStep::Submit => {
            assert(pre.started + pre.queue.push(pre.submitted) =~= (pre.started
                + pre.queue).push(pre.submitted));
            assert(ascending(pre.submitted).push(pre.submitted) =~= ascending(pre.submitted + 1));
        },
        PoolStep::StartJob => {
            assert(pre.started.push(pre.queue[0]) + pre.queue.drop_first() =~= pre.started
                + pre.queue);
            assert(post.started.to_set() =~= pre.started.to_set().insert(pre.queue[0])) by {
                pre.started.lemma_push_to_set_commute(pre.queue[0]);
            }
            assert(pre.finished.subset_of(post.started.to_set()));
        },
        PoolStep::FinishJob { .. } => {
            assert(post.finished.len() == pre.finished.len() + 1);
        },
        PoolStep::Close => {},
        PoolStep::StopWorker => {},
        PoolStep::JoinWorker => {},
    }
}

/// Once every worker has stopped, every submitted job has been both started
/// and finished, the queue is empty, and `started` lists the ids in exact
/// submission order with no repetition: `M` submissions meant `M` executions,
/// each exactly once.
pub proof fn theorem_all_jobs_executed_once(s: PoolState)
    requires
        inv(s),
        s.stopped == s.size,
    ensures
        s.queue.len() == 0,
        s.started.len() == s.submitted,
        forall|i: int| 0 <= i < s.started.len() ==> #[trigger] s.started[i] == i,
        s.started.no_duplicates(),
        s.finished =~= s.started.to_set(),
        s.finished.len() == s.submitted,
{
    lemma_started_is_prefix(s);
    s.started.unique_seq_to_set();
    assert(s.started.to_set().len() == s.started.len());
    assert(s.in_flight() <= 0);
    lemma_len_subset(s.finished, s.started.to_set());
    assert(s.finished.len() == s.started.to_set().len());
    assert forall|j: nat| s.started.to_set().contains(j) implies s.finished.contains(j) by {
        if !s.finished.contains(j) {
            s.finished.lemma_subset_not_in_lt(s.started.to_set(), j);
        }
    }
}

/// FIFO begin order: workers begin jobs in exactly the order they were
/// submitted. In particular, with one worker, a second job's execution can
/// only start after the first job's start.
pub proof fn theorem_fifo_begin_order(s: PoolState)
    requires
        inv(s),
    ensures
        forall|i: int, j: int|
            0 <= i < j < s.started.len() ==> #[trigger] s.started[i] < #[trigger] s.started[j],
{
    lemma_started_is_prefix(s);
}

/// With a single worker the pool serializes completely: at most one job is
/// ever in flight, so a second job's execution cannot overlap the first's —
/// overlapping completion takes a pool of more than one worker.
pub proof fn theorem_single_worker_never_overlaps(s: PoolState)
    requires
        inv(s),
        s.size == 1,
    ensures
        s.in_flight() <= 1,
{
}

/// Teardown accounting: joins never outnumber the pool's workers, and once
/// `size` workers have been joined, every worker had stopped, the queue was
/// fully drained, and every submitted job had finished — teardown returns
/// with no thread leaked and no job dropped.
pub proof fn theorem_teardown_complete(s: PoolState)
    requires
        inv(s),
        s.joined == s.size,
    ensures
        s.stopped == s.size,
        s.queue.len() == 0,
        s.started.len() == s.submitted,
        s.finished.len() == s.submitted,
{
    theorem_all_jobs_executed_once(s);
}

} // verus!
