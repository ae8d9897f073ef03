//! Jobs: functions without arguments, kept as values to be run later.

use vstd::prelude::*;

verus! {

/// A function that takes nothing and returns nothing, kept to be run. Two
/// jobs are the same exactly when their functions are.
#[derive(Clone, Copy, PartialEq, Eq, Hash)]
pub struct Job<F: Fn() -> ()> {
    /// The function that the job runs. It is open to view, so that jobs
    /// can be told apart by it; make a job with `Job::new`.
    pub _internal: F,
}

impl<F: Fn() -> ()> Job<F> {
    /// The function that the job runs.
    pub open spec fn func(&self) -> F {
        self._internal
    }

    /// The job that runs `func`. The function is kept, not called.
    pub fn new(func: F) -> (job: Job<F>)
        ensures
            job.func() == func,
    {
        Job { _internal: func }
    }

    /// Runs the job's function, once. The function's own demand on its
    /// caller must hold, and what it promises holds afterwards.
    pub fn run(&self)
        requires
            call_requires(self.func(), ()),
        ensures
            call_ensures(self.func(), (), ()),
    {
        (self._internal)()
    }
}

/// Two jobs are the same exactly when their functions are.
pub proof fn lemma_job_eq_by_func<F: Fn() -> ()>(a: Job<F>, b: Job<F>)
    ensures
        (a == b) == (a.func() == b.func()),
{
}

} // verus!
