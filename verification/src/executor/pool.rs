//! The set of workers of a thread pool.

use vstd::prelude::*;

verus! {

/// How many workers a pool has.
pub const N: usize = 4;

/// One worker of a pool, known by its place in the set.
pub struct Worker {
    idx: usize,
}

/// The workers of a pool, before their threads are started.
pub struct Workers {
    pub workers: Vec<Worker>,
}

impl Worker {
    /// The place of the worker in its set.
    pub closed spec fn spec_id(&self) -> usize {
        self.idx
    }

    /// The place of the worker in its set.
    #[verifier::when_used_as_spec(spec_id)]
    pub fn id(&self) -> (idx: usize)
        ensures
            idx == self.spec_id(),
    {
        self.idx
    }
}

impl Workers {
    /// The workers of a pool of the usual size.
    pub fn new() -> (set: Workers)
        ensures
            set.workers@.len() == N,
            forall|i: int| 0 <= i < N ==> (#[trigger] set.workers@[i]).id() == i,
    {
        create_set(N)
    }
}

/// A set of `n` workers, numbered from 0 in order.
pub fn create_set(n: usize) -> (set: Workers)
    ensures
        set.workers@.len() == n,
        forall|i: int| 0 <= i < n ==> (#[trigger] set.workers@[i]).id() == i,
{
    let mut workers: Vec<Worker> = Vec::new();
    let mut idx: usize = 0;
    while idx < n
        invariant
            idx <= n,
            workers@.len() == idx,
            forall|i: int| 0 <= i < idx ==> (#[trigger] workers@[i]).id() == i,
        decreases n - idx,
    {
        workers.push(Worker { idx });
        idx += 1;
    }
    Workers { workers }
}

} // verus!
