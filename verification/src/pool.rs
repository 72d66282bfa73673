//! The worker pool's decision logic: validation of the pool size, the
//! bookkeeping a running pool maintains (accepting, submitted, joined), and
//! the per-worker state machine that drives each worker thread's loop. The
//! threads, the channel, and the joins themselves live outside this crate;
//! they call into these functions for every decision they take.

use vstd::prelude::*;

verus! {

/// The closed set of failure classes the server distinguishes.
#[derive(Clone, Copy, PartialEq, Eq, Structural, Debug)]
pub enum ErrorKind {
    /// A fatal error during startup: an invalid pool size or a failed bind.
    StartupFailure,
    /// A failure confined to one connection's job: a bad read, write, or a
    /// missing body file. The worker survives it.
    ConnectionFailure,
    /// An invalid configuration detected before serving begins.
    ConfigurationFailure,
}

/// The bookkeeping side of a worker pool with a fixed number of workers.
///
/// The pool proper owns threads and a channel; this controller holds the
/// state every pool decision reads: how many workers exist, whether the
/// producer handle is still alive (so `submit` may enqueue), how many jobs
/// have been accepted, and how many workers teardown has joined so far.
pub struct PoolController {
    pub size: usize,
    pub accepting: bool,
    pub submitted: u64,
    pub joined: usize,
}

impl PoolController {
    /// Validate the requested pool size and set up the bookkeeping.
    ///
    /// A pool of zero workers could never drain its queue, so size `0` is
    /// rejected as a startup failure before anything else happens; every
    /// positive size is accepted.
    pub fn new(size: usize) -> (r: Result<PoolController, ErrorKind>)
        ensures
            r is Ok <==> size >= 1,
            size == 0 ==> r == Result::<PoolController, ErrorKind>::Err(ErrorKind::StartupFailure),
            r matches Ok(c) ==> c.size == size && c.accepting && c.submitted == 0 && c.joined == 0,
    {
        if size == 0 {
            Err(ErrorKind::StartupFailure)
        } else {
            Ok(PoolController { size, accepting: true, submitted: 0, joined: 0 })
        }
    }

    /// Account for one job handed to the queue. Submission is only legal
    /// while the producer handle is alive, and then always succeeds: the
    /// queue is unbounded and never pushes back.
    pub fn record_submit(&mut self)
        requires
            old(self).accepting,
            old(self).submitted < u64::MAX,
        ensures
            final(self).submitted == old(self).submitted + 1,
            final(self).size == old(self).size,
            final(self).accepting == old(self).accepting,
            final(self).joined == old(self).joined,
    {
        self.submitted = self.submitted + 1;
    }

    /// Enter teardown: the producer handle is dropped, so no further job can
    /// be enqueued and the workers will observe end-of-stream once the queue
    /// is drained. Nothing else changes yet.
    pub fn begin_teardown(&mut self)
        requires
            old(self).accepting,
        ensures
            !final(self).accepting,
            final(self).size == old(self).size,
            final(self).submitted == old(self).submitted,
            final(self).joined == old(self).joined,
    {
        self.accepting = false;
    }

    /// Account for one worker joined during teardown. Joins happen only after
    /// the producer handle is gone, in worker-index order, and never more
    /// than once per worker.
    pub fn record_join(&mut self)
        requires
            !old(self).accepting,
            old(self).joined < old(self).size,
        ensures
            final(self).joined == old(self).joined + 1,
            final(self).size == old(self).size,
            final(self).submitted == old(self).submitted,
            final(self).accepting == old(self).accepting,
    {
        self.joined = self.joined + 1;
    }

    /// Teardown is complete exactly when the producer handle is gone and
    /// every one of the pool's workers has been joined.
    pub fn teardown_complete(&self) -> (r: bool)
        ensures
            r == (!self.accepting && self.joined == self.size),
    {
        !self.accepting && self.joined == self.size
    }
}

/// The states of one worker's lifecycle.
#[derive(Clone, Copy, PartialEq, Eq, Structural, Debug)]
pub enum WorkerState {
    /// Blocked on the queue, waiting for a job or for end-of-stream.
    Idle,
    /// Running one job to completion.
    Executing,
    /// The queue closed; the worker's loop has exited for good.
    Stopped,
}

/// The events a worker can observe.
#[derive(Clone, Copy, PartialEq, Eq, Structural, Debug)]
pub enum WorkerEvent {
    /// The blocking receive handed over a job.
    JobReceived,
    /// The running job returned.
    JobFinished,
    /// The blocking receive reported the queue closed and drained.
    QueueClosed,
}

/// Which events can occur in which state: a job arrives or the queue closes
/// only while the worker is idle at the queue, and a job finishes only while
/// one is executing. A stopped worker observes nothing further.
pub open spec fn worker_event_allowed(s: WorkerState, e: WorkerEvent) -> bool {
    match e {
        WorkerEvent::JobReceived => s is Idle,
        WorkerEvent::JobFinished => s is Executing,
        WorkerEvent::QueueClosed => s is Idle,
    }
}

/// The worker lifecycle: `Idle` loops through `Executing` and back for every
/// job, and moves to the terminal `Stopped` when the queue closes.
pub open spec fn spec_worker_next(s: WorkerState, e: WorkerEvent) -> WorkerState {
    match e {
        WorkerEvent::JobReceived => WorkerState::Executing,
        WorkerEvent::JobFinished => WorkerState::Idle,
        WorkerEvent::QueueClosed => WorkerState::Stopped,
    }
}

/// Advance one worker's state by one observed event. The worker thread's loop
/// is exactly: receive, step on the outcome, run the job if now `Executing`,
/// exit once `Stopped`.
pub fn worker_transition(s: WorkerState, e: WorkerEvent) -> (r: WorkerState)
    requires
        worker_event_allowed(s, e),
    ensures
        r == spec_worker_next(s, e),
{
    match e {
        WorkerEvent::JobReceived => WorkerState::Executing,
        WorkerEvent::JobFinished => WorkerState::Idle,
        WorkerEvent::QueueClosed => WorkerState::Stopped,
    }
}

/// A worker only ever stops because the queue closed, and `Stopped` is
/// terminal: no allowed event leads out of it.
pub proof fn lemma_stopped_is_terminal(s: WorkerState, e: WorkerEvent)
    ensures
        spec_worker_next(s, e) is Stopped ==> e is QueueClosed,
        s is Stopped ==> !worker_event_allowed(s, e),
{
}

} // verus!
