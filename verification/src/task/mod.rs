//! Tasks, their identifiers and what a computation is handed when it is
//! advanced.

use vstd::prelude::*;

pub mod executor;
pub mod idle;
pub mod keyboard;
pub mod keys;
pub mod order;
pub mod queue;
pub mod simple_executor;

use executor::TaskWaker;
use keyboard::EventBridge;

verus! {

/// The outcome of advancing a computation once.
#[derive(Debug, PartialEq, Eq)]
pub enum Poll<T> {
    /// The computation has finished with this value.
    Ready(T),
    /// The computation has suspended and waits to be resumed.
    Pending,
}

impl<T> Poll<T> {
    /// Whether the computation has finished.
    pub fn is_ready(&self) -> (ready: bool)
        ensures
            ready == (*self is Ready),
    {
        match self {
            Poll::Ready(_) => true,
            Poll::Pending => false,
        }
    }

    /// Whether the computation has suspended.
    pub fn is_pending(&self) -> (pending: bool)
        ensures
            pending == (*self is Pending),
    {
        match self {
            Poll::Ready(_) => false,
            Poll::Pending => true,
        }
    }
}

/// The identifier of a task: the only key by which tasks are told apart
/// and ordered.
#[derive(Debug, Clone, Copy, PartialEq, Eq, PartialOrd, Ord, Hash, Structural)]
pub struct TaskId(u64);

impl View for TaskId {
    type V = u64;

    closed spec fn view(&self) -> u64 {
        self.0
    }
}

/// The source of task identifiers. A process keeps one for its whole
/// lifetime and constructs every task from it.
#[derive(Debug)]
pub struct TaskIdCounter {
    next: u64,
}

/// The identifier that follows `value`: the counter wraps after the
/// largest one.
pub open spec fn succ_id(value: u64) -> u64 {
    if value == u64::MAX {
        0
    } else {
        (value + 1) as u64
    }
}

/// The identifier that the construction number `n` (counting from zero)
/// receives from a counter that stands at `first`.
pub open spec fn nth_id(first: u64, n: nat) -> u64
    decreases n,
{
    if n == 0 {
        first
    } else {
        nth_id(succ_id(first), (n - 1) as nat)
    }
}

impl TaskIdCounter {
    /// The identifier that the next construction will receive.
    pub closed spec fn next(&self) -> u64 {
        self.next
    }

    /// A counter that has handed out nothing: the first identifier is 0.
    pub fn new() -> (counter: TaskIdCounter)
        ensures
            counter.next() == 0,
    {
        TaskIdCounter { next: 0 }
    }
}

impl TaskId {
    /// Takes the next identifier from the counter.
    pub fn new(counter: &mut TaskIdCounter) -> (id: TaskId)
        ensures
            id@ == old(counter).next(),
            final(counter).next() == succ_id(old(counter).next()),
    {
        let value: u64 = counter.next;
        counter.next = value.wrapping_add(1);
        TaskId(value)
    }

    /// The identifier with the given number.
    pub(crate) fn from_u64(value: u64) -> (id: TaskId)
        ensures
            id@ == value,
    {
        TaskId(value)
    }

    /// The identifier's number.
    pub fn as_u64(&self) -> (value: u64)
        ensures
            value == self@,
    {
        self.0
    }

    /// Two identifiers are the same exactly when their numbers are.
    pub proof fn lemma_eq_by_number(a: TaskId, b: TaskId)
        ensures
            (a == b) == (a@ == b@),
    {
    }
}

/// While the counter does not wrap, the construction number `n` receives
/// the starting identifier plus `n`.
pub proof fn lemma_nth_id_unwrapped(first: u64, n: nat)
    requires
        first + n <= u64::MAX,
    ensures
        nth_id(first, n) == first + n,
    decreases n,
{
    if n > 0 {
        lemma_nth_id_unwrapped(succ_id(first), (n - 1) as nat);
    }
}

/// Identifiers are unique and increase in construction order: of any two
/// constructions from one counter, the later one receives the larger
/// identifier, as long as the counter has not passed its largest value.
pub proof fn lemma_task_ids_strictly_increasing(first: u64, i: nat, j: nat)
    requires
        i < j,
        first + j <= u64::MAX,
    ensures
        nth_id(first, i) < nth_id(first, j),
        nth_id(first, i) != nth_id(first, j),
{
    lemma_nth_id_unwrapped(first, i);
    lemma_nth_id_unwrapped(first, j);
}

/// What a computation is handed when it is advanced: the resumption handle
/// of its task, and the event bridge on which it may wait for input.
pub struct Context<'a> {
    /// The handle that puts the task being advanced back on the ready queue.
    pub waker: TaskWaker,
    /// The bridge from the keyboard interrupt to waiting computations.
    pub keyboard: &'a mut EventBridge,
}

/// A unit of asynchronous work. It is advanced step by step and reports
/// after each step whether it has finished or has suspended.
///
/// A computation that suspends must have left `context.waker` with whatever
/// will resume it; one that has finished is never advanced again.
pub trait Computation {
    /// Advances the computation until it finishes or suspends.
    fn poll(&mut self, context: &mut Context) -> (outcome: Poll<()>);
}

/// A computation together with its identifier, and the log of its
/// advances: for each, what the computation reported and the resumption
/// handle that it was handed.
pub struct Task {
    id: TaskId,
    future: Box<dyn Computation>,
    log: Ghost<Seq<(Poll<()>, TaskWaker)>>,
}

impl Task {
    /// The task's identifier.
    pub closed spec fn id(&self) -> TaskId {
        self.id
    }

    /// The advances of the task's computation, oldest first: the outcome
    /// that each reported, and the handle that each was handed.
    pub closed spec fn log(&self) -> Seq<(Poll<()>, TaskWaker)> {
        self.log@
    }

    /// How often the task's computation has been advanced.
    pub open spec fn polls(&self) -> nat {
        self.log().len()
    }

    /// What the computation reported when it was last advanced, and the
    /// resumption handle that it was handed then; `None` for a task that
    /// has not been advanced.
    pub open spec fn last(&self) -> Option<(Poll<()>, TaskWaker)> {
        if self.log().len() > 0 {
            Some(self.log().last())
        } else {
            None
        }
    }

    /// Wraps a computation into a task with the counter's next identifier.
    /// The task has not been advanced yet.
    pub fn new<F: Computation + 'static>(counter: &mut TaskIdCounter, future: F) -> (task: Task)
        ensures
            task.id()@ == old(counter).next(),
            task.log() == Seq::<(Poll<()>, TaskWaker)>::empty(),
            final(counter).next() == succ_id(old(counter).next()),
    {
        Task { id: TaskId::new(counter), future: Box::new(future), log: Ghost(Seq::empty()) }
    }

    /// Advances the task's computation once, and reports what the
    /// computation reports. The task keeps its identifier, and its log has
    /// this advance at its end: the outcome that is returned, and the
    /// handle that came in `context`.
    pub fn poll(&mut self, context: &mut Context) -> (outcome: Poll<()>)
        ensures
            final(self).id() == old(self).id(),
            final(self).log() == old(self).log().push((outcome, old(context).waker)),
    {
        let ghost handed = context.waker;
        let outcome: Poll<()> = self.future.poll(context);
        self.log = Ghost(self.log@.push((outcome, handed)));
        outcome
    }

    /// The task's identifier.
    pub fn task_id(&self) -> (id: TaskId)
        ensures
            id == self.id(),
    {
        self.id
    }
}

} // verus!
