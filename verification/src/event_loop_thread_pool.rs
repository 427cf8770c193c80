use vstd::prelude::*;

verus! {

/// Number of sockets that each worker reactor of a pool is made for.
pub const WORKER_SOCKET_CAPACITY: usize = 1024;

/// The round-robin bookkeeping of a fixed set of worker reactors, which are known
/// by their indices `0 .. thread_count`.
#[derive(Clone, Copy, Debug)]
pub struct EventLoopThreadPool {
    reactor_index: usize,
    thread_count: usize,
}

impl EventLoopThreadPool {
    /// Number of workers; never zero.
    pub closed spec fn count(&self) -> nat {
        self.thread_count as nat
    }

    /// Index of the worker that gets the next connection.
    pub closed spec fn next_index(&self) -> nat {
        self.reactor_index as nat
    }

    /// There is a worker, and the next index names one.
    pub closed spec fn wf(&self) -> bool {
        self.reactor_index < self.thread_count
    }

    /// A pool of `thread_count` workers, of one worker where zero is asked for.
    /// The first connection goes to worker 0.
    pub fn new(thread_count: usize) -> (pool: EventLoopThreadPool)
        ensures
            pool.wf(),
            pool.count() == (if thread_count == 0 {
                1
            } else {
                thread_count
            }),
            pool.next_index() == 0,
    {
        let thread_count = if thread_count == 0 {
            1
        } else {
            thread_count
        };
        EventLoopThreadPool { reactor_index: 0, thread_count }
    }

    /// Index of the worker that gets the next connection.
    pub fn reactor_index(&self) -> (index: usize)
        requires
            self.wf(),
        ensures
            index == self.next_index(),
            index < self.count(),
    {
        self.reactor_index
    }

    /// Number of workers.
    pub fn thread_count(&self) -> (count: usize)
        requires
            self.wf(),
        ensures
            count == self.count(),
            count > 0,
    {
        self.thread_count
    }

    /// Picks the worker for the next connection and moves on to the one after it,
    /// back to worker 0 after the last.
    pub fn get_next_reactor(&mut self) -> (index: usize)
        requires
            old(self).wf(),
        ensures
            final(self).wf(),
            final(self).count() == old(self).count(),
            index == old(self).next_index(),
            final(self).next_index() == (old(self).next_index() + 1) % old(self).count(),
    {
        let index = self.reactor_index;
        self.reactor_index = if index + 1 == self.thread_count {
            0
        } else {
            index + 1
        };
        assert(self.reactor_index == (index + 1) % (self.thread_count as int)) by {
            if index + 1 == self.thread_count {
                assert((index + 1) % (self.thread_count as int) == 0) by (nonlinear_arith)
                    requires
                        index + 1 == self.thread_count,
                        self.thread_count > 0,
                ;
            } else {
                assert((index + 1) % (self.thread_count as int) == index + 1) by (nonlinear_arith)
                    requires
                        0 <= index + 1 < self.thread_count,
                ;
            }
        }
        index
    }

    /// The indices of all workers, in order.
    pub fn get_remotes(&self) -> (indices: Vec<usize>)
        requires
            self.wf(),
        ensures
            indices@ == Seq::new(self.count(), |i: int| i as usize),
    {
        let mut indices: Vec<usize> = Vec::new();
        let mut i: usize = 0;
        while i < self.thread_count
            invariant
                i <= self.thread_count,
                indices@ == Seq::new(i as nat, |k: int| k as usize),
            decreases self.thread_count - i,
        {
            indices.push(i);
            assert(indices@ =~= Seq::new((i + 1) as nat, |k: int| k as usize));
            i += 1;
        }
        indices
    }
}

/// The worker that gets the `n`-th connection (counting from 0) of a pool that
/// starts at worker `first`: the workers take turns.
pub open spec fn worker_of(first: nat, count: nat, n: nat) -> nat
    recommends
        count > 0,
{
    (first + n) % count
}

/// The pool's state after `n` picks, starting from `pool`.
pub open spec fn after_picks(
    pool: EventLoopThreadPool,
    later: EventLoopThreadPool,
    n: nat,
) -> bool {
    &&& later.wf()
    &&& later.count() == pool.count()
    &&& later.next_index() == worker_of(pool.next_index(), pool.count(), n)
}

/// One more pick keeps the turn-taking: if `mid` is the pool after `n` picks and
/// `later` the pool after one further pick, that pick chose the worker
/// `worker_of(.., n)` and `later` is the pool after `n + 1` picks.
pub proof fn lemma_round_robin_step(
    pool: EventLoopThreadPool,
    mid: EventLoopThreadPool,
    later: EventLoopThreadPool,
    n: nat,
)
    requires
        pool.wf(),
        after_picks(pool, mid, n),
        later.wf(),
        later.count() == mid.count(),
        later.next_index() == (mid.next_index() + 1) % mid.count(),
    ensures
        mid.next_index() == worker_of(pool.next_index(), pool.count(), n),
        after_picks(pool, later, n + 1),
{
    let c = pool.count() as int;
    let f = pool.next_index() as int;
    assert(c > 0);
    assert(((f + n) % c + 1) % c == (f + n + 1) % c) by (nonlinear_arith)
        requires
            c > 0,
            f + n >= 0,
    ;
}

} // verus!
