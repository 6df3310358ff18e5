use vstd::prelude::*;

verus! {

/// What a [`RuntimeBuilder`] holds: the thread counts chosen so far and the
/// number of hardware threads the machine allows.
pub struct RuntimeBuilderView {
    pub high_threads: Option<usize>,
    pub low_threads: Option<usize>,
    pub allowed: usize,
}

/// What a configured [`Runtime`] holds: the number of blocking (low priority)
/// worker threads and of regular (high priority) worker threads.
pub struct RuntimeView {
    pub low: usize,
    pub high: usize,
}

/// A runtime configuration, produced by [`RuntimeBuilder::build`].
pub struct Runtime {
    low: usize,
    high: usize,
}

/// Builder for a [`Runtime`].
pub struct RuntimeBuilder {
    high_threads: Option<usize>,
    low_threads: Option<usize>,
    allowed: usize,
}

impl View for Runtime {
    type V = RuntimeView;

    closed spec fn view(&self) -> RuntimeView {
        RuntimeView { low: self.low, high: self.high }
    }
}

impl View for RuntimeBuilder {
    type V = RuntimeBuilderView;

    closed spec fn view(&self) -> RuntimeBuilderView {
        RuntimeBuilderView {
            high_threads: self.high_threads,
            low_threads: self.low_threads,
            allowed: self.allowed,
        }
    }
}

/// The split that `high_priority_threads(num)` makes of the `allowed` threads:
/// `num` regular threads and the rest blocking when `num` is below `allowed`,
/// otherwise all but one regular thread and a single blocking thread.
pub open spec fn split_threads(allowed: usize, num: usize) -> (Option<usize>, Option<usize>) {
    if num < allowed {
        (Some(num), Some((allowed - num) as usize))
    } else {
        (Some((allowed - 1) as usize), Some(1usize))
    }
}

/// Whatever `num` is asked for, the split gives every allowed thread a role
/// (regular plus blocking threads make up `allowed`), keeps at least one
/// blocking thread, and leaves fewer regular threads than `allowed`, so that
/// the reactor's token stays free.
pub proof fn lemma_split_threads(allowed: usize, num: usize)
    requires
        allowed >= 1,
    ensures
        split_threads(allowed, num).0 matches Some(high) && high < allowed,
        split_threads(allowed, num).1 matches Some(low) && low >= 1,
        split_threads(allowed, num).0.unwrap() + split_threads(allowed, num).1.unwrap() == allowed,
{
}

/// A request below the machine's thread count is granted exactly: `num`
/// regular threads and the rest blocking. Only a request of `allowed` or more
/// is capped, and then always to all but one thread.
pub proof fn lemma_split_honours_request(allowed: usize, num: usize)
    requires
        allowed >= 1,
    ensures
        num < allowed ==> split_threads(allowed, num).0 == Some(num) && split_threads(
            allowed,
            num,
        ).1.unwrap() + num == allowed,
        num >= allowed ==> split_threads(allowed, num).0 == Some((allowed - 1) as usize)
            && split_threads(allowed, num).1 == Some(1usize),
{
}

/// Two requests below the machine's thread count differ in their regular
/// threads by exactly as much as the requests differ, and the blocking
/// threads make up the difference.
pub proof fn lemma_split_tracks_requests(allowed: usize, a: usize, b: usize)
    requires
        allowed >= 1,
        a < allowed,
        b < allowed,
    ensures
        split_threads(allowed, a).0.unwrap() - split_threads(allowed, b).0.unwrap() == a - b,
        split_threads(allowed, b).1.unwrap() - split_threads(allowed, a).1.unwrap() == a - b,
{
}

impl RuntimeBuilder {
    /// A builder may only exist for a machine with at least one hardware thread.
    pub open spec fn wf(&self) -> bool {
        self@.allowed >= 1
    }

    /// Chooses `num` regular worker threads; see [`split_threads`].
    pub fn high_priority_threads(self, num: usize) -> (r: Self)
        requires
            self.wf(),
        ensures
            r.wf(),
            r@.allowed == self@.allowed,
            (r@.high_threads, r@.low_threads) == split_threads(self@.allowed, num),
            num < self@.allowed ==> r@.high_threads == Some(num) && r@.low_threads == Some(
                (self@.allowed - num) as usize,
            ),
            num >= self@.allowed ==> r@.high_threads == Some((self@.allowed - 1) as usize)
                && r@.low_threads == Some(1usize),
    {
        let mut this = self;
        if num < this.allowed {
            this.high_threads = Some(num);
            this.low_threads = Some(this.allowed - num);
        } else {
            this.high_threads = Some(this.allowed - 1);
            this.low_threads = Some(1);
        }
        this
    }

    /// Fixes the configuration; a count that was never chosen is one thread.
    pub fn build(self) -> (r: Runtime)
        ensures
            r@.low == (match self@.low_threads { Some(n) => n, None => 1 }),
            r@.high == (match self@.high_threads { Some(n) => n, None => 1 }),
    {
        let low = match self.low_threads {
            Some(n) => n,
            None => 1,
        };
        let high = match self.high_threads {
            Some(n) => n,
            None => 1,
        };
        Runtime { low, high }
    }
}

impl Runtime {
    /// Starts a builder for a machine with `parallelism` hardware threads.
    pub fn builder(parallelism: usize) -> (b: RuntimeBuilder)
        requires
            parallelism >= 1,
        ensures
            b.wf(),
            b@ == (RuntimeBuilderView { high_threads: None, low_threads: None, allowed: parallelism }),
    {
        RuntimeBuilder { high_threads: None, low_threads: None, allowed: parallelism }
    }

    /// Number of regular (high priority) worker threads.
    pub fn high_threads(&self) -> (r: usize)
        ensures
            r == self@.high,
    {
        self.high
    }

    /// Number of blocking (low priority) worker threads.
    pub fn low_threads(&self) -> (r: usize)
        ensures
            r == self@.low,
    {
        self.low
    }
}

} // verus!

use std::sync::Arc;

verus! {

/// The event-loop waker of the `mio` crate, carried through opaquely.
#[verifier::external_type_specification]
#[verifier::external_body]
pub struct ExMioWaker(mio::Waker);

/// Calls `mio::Waker::wake`, which wakes the event loop the waker belongs
/// to; reports whether the call succeeded. What the operating system does is
/// not claimed.
#[verifier::external_body]
fn wake_thread(waker: &mio::Waker) -> (woke: bool) {
    waker.wake().is_ok()
}

/// Calls `rand::random_range(0..bound)`, which panics on an empty range and
/// otherwise returns a random index below `bound`. Which index comes out is
/// left open; so is the panic of the thread-local generator when the
/// operating system gives it no seed.
#[verifier::external_body]
fn random_index(bound: usize) -> (r: usize)
    requires
        bound > 0,
    ensures
        r < bound,
{
    rand::random_range(0..bound)
}

/// The wakers of the worker threads of a started runtime: one per regular
/// worker, the blocking worker's and the reactor's.
pub struct WorkerMeta {
    wakers: Vec<Arc<mio::Waker>>,
    blocking: Arc<mio::Waker>,
    reactor_waker: mio::Waker,
    capacity: usize,
}

impl WorkerMeta {
    /// The number of regular workers, one waker each.
    pub closed spec fn capacity_spec(&self) -> usize {
        self.capacity
    }

    /// The waker of regular worker `i`.
    pub closed spec fn regular_waker_spec(&self, i: int) -> Arc<mio::Waker> {
        self.wakers@[i]
    }

    /// The waker of the blocking worker.
    pub closed spec fn blocking_waker_spec(&self) -> Arc<mio::Waker> {
        self.blocking
    }

    /// Invariant: one waker per regular worker.
    pub closed spec fn wf(&self) -> bool {
        self.wakers.len() == self.capacity
    }

    /// Collects the wakers of a runtime with `wakers.len()` regular workers.
    pub fn new(wakers: Vec<Arc<mio::Waker>>, blocking: Arc<mio::Waker>, reactor_waker: mio::Waker) -> (r: Self)
        ensures
            r.wf(),
            r.capacity_spec() == wakers.len(),
            forall|i: int| 0 <= i < wakers.len() ==> r.regular_waker_spec(i) == wakers@[i],
            r.blocking_waker_spec() == blocking,
    {
        let capacity = wakers.len();
        WorkerMeta { wakers, blocking, reactor_waker, capacity }
    }

    /// The number of regular workers.
    pub fn capacity(&self) -> (r: usize)
        ensures
            r == self.capacity_spec(),
    {
        self.capacity
    }

    /// Picks a regular worker at random to wake for a newly spawned task.
    pub fn pick_worker(&self) -> (r: usize)
        requires
            self.capacity_spec() > 0,
        ensures
            r < self.capacity_spec(),
    {
        random_index(self.capacity)
    }

    /// The waker of regular worker `i`.
    pub fn regular_waker(&self, i: usize) -> (r: &Arc<mio::Waker>)
        requires
            self.wf(),
            i < self.capacity_spec(),
        ensures
            *r == self.regular_waker_spec(i as int),
    {
        &self.wakers[i]
    }

    /// The waker of the blocking worker.
    pub fn blocking_waker(&self) -> (r: &Arc<mio::Waker>)
        ensures
            *r == self.blocking_waker_spec(),
    {
        &self.blocking
    }

    /// Wakes every regular worker, then the blocking worker, then the
    /// reactor, so that each sees that the runtime stopped. Failed wake calls
    /// are ignored.
    pub fn wake_all(&self) {
        let n = self.wakers.len();
        let mut i: usize = 0;
        while i < n
            invariant
                n == self.wakers.len(),
                i <= n,
            decreases n - i,
        {
            let _ = wake_thread(&self.wakers[i]);
            i = i + 1;
        }
        let _ = wake_thread(&self.blocking);
        let _ = wake_thread(&self.reactor_waker);
    }
}

/// The number of workers whose thread did not join cleanly.
pub open spec fn count_failed(joined: Seq<bool>) -> nat
    decreases joined.len(),
{
    if joined.len() == 0 {
        0
    } else {
        count_failed(joined.drop_last()) + if joined.last() {
            0nat
        } else {
            1nat
        }
    }
}

/// The result of a shutdown whose worker threads joined with the outcomes
/// `joined` (true for a clean join): the number of failed joins, if any.
pub open spec fn shutdown_result_spec(joined: Seq<bool>) -> Result<(), usize> {
    if count_failed(joined) == 0 {
        Ok(())
    } else {
        Err(count_failed(joined) as usize)
    }
}

/// The result of a shutdown whose worker threads joined with the outcomes
/// `joined`: `Ok` when all joined cleanly, else the number that did not.
pub fn shutdown_result(joined: &Vec<bool>) -> (r: Result<(), usize>)
    ensures
        r == shutdown_result_spec(joined@),
{
    let mut failures: usize = 0;
    let mut i: usize = 0;
    while i < joined.len()
        invariant
            i <= joined.len(),
            failures == count_failed(joined@.take(i as int)),
            failures <= i,
        decreases joined.len() - i,
    {
        assert(joined@.take(i as int + 1).drop_last() == joined@.take(i as int));
        if !joined[i] {
            failures = failures + 1;
        }
        i = i + 1;
    }
    assert(joined@.take(joined.len() as int) == joined@);
    if failures > 0 {
        Err(failures)
    } else {
        Ok(())
    }
}

} // verus!
