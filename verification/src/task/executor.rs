//! The scheduler: the table of live tasks, the ready queue and the cache
//! of resumption handles.

use super::keyboard::EventBridge;
use super::queue::{
    id_queue_capacity, id_queue_is_empty, id_queue_items, id_queue_len, id_queue_limit,
    id_queue_new, id_queue_pop, id_queue_push, valid_capacity,
};
use super::{Context, Poll, Task, TaskId};
use crossbeam_queue::ArrayQueue;
use std::collections::BTreeMap;
use vstd::prelude::*;

verus! {

/// The capacity of the ready queue of `Executor::new`.
pub const DEFAULT_CAPACITY: usize = 100;

/// The resumption handle of one task. Invoking it puts the task's
/// identifier on the ready queue.
#[derive(Debug, Clone, Copy, PartialEq, Eq, Structural)]
pub struct TaskWaker {
    task_id: TaskId,
}

impl View for TaskWaker {
    type V = u64;

    /// The number of the task that the handle resumes.
    closed spec fn view(&self) -> u64 {
        self.task_id@
    }
}

/// What the scheduler does once it has found nothing ready, interrupts
/// being disabled.
#[derive(Debug, Clone, Copy, PartialEq, Eq, Structural)]
pub enum IdleAction {
    /// Re-enable interrupts and halt the processor in one uninterruptible
    /// step.
    EnableAndHalt,
    /// Re-enable interrupts and go on: work has arrived meanwhile.
    Enable,
}

/// The decision about an empty ready queue: halt only if nothing is ready.
pub open spec fn idle_action(ready: nat) -> IdleAction {
    if ready == 0 {
        IdleAction::EnableAndHalt
    } else {
        IdleAction::Enable
    }
}

/// The scheduler's state as a value.
#[verifier::ext_equal]
pub struct ExecutorView {
    /// The live tasks, each under the number of its identifier.
    pub tasks: Map<u64, Task>,
    /// The ready queue, next identifier first.
    pub queue: Seq<u64>,
    /// The tasks whose resumption handle is cached.
    pub wakers: Set<u64>,
    /// The capacity of the ready queue.
    pub capacity: nat,
}

impl ExecutorView {
    /// The scheduler's invariant: the queue respects its capacity, every
    /// task is filed under its own identifier, handles are cached for live
    /// tasks only, and a task that was never advanced is still queued.
    pub open spec fn wf(self) -> bool {
        &&& 0 < self.capacity
        &&& self.queue.len() <= self.capacity
        &&& forall|k: u64| #[trigger] self.tasks.contains_key(k) ==> self.tasks[k].id()@ == k
        &&& forall|k: u64| #[trigger] self.wakers.contains(k) ==> self.tasks.contains_key(k)
        &&& forall|k: u64| #[trigger]
            self.tasks.contains_key(k) && !self.wakers.contains(k) ==> self.queue.contains(k)
    }

    /// The invariant between taking `id` from the queue and advancing it:
    /// only `id` may be live, never advanced and unqueued.
    pub open spec fn wf_taken(self, id: u64) -> bool {
        &&& 0 < self.capacity
        &&& self.queue.len() <= self.capacity
        &&& forall|k: u64| #[trigger] self.tasks.contains_key(k) ==> self.tasks[k].id()@ == k
        &&& forall|k: u64| #[trigger] self.wakers.contains(k) ==> self.tasks.contains_key(k)
        &&& forall|k: u64| #[trigger]
            self.tasks.contains_key(k) && !self.wakers.contains(k) && k != id
                ==> self.queue.contains(k)
    }

    /// The state of a new scheduler.
    pub open spec fn empty(capacity: nat) -> ExecutorView {
        ExecutorView { tasks: Map::empty(), queue: Seq::empty(), wakers: Set::empty(), capacity }
    }

    /// Whether `task` can be spawned: its identifier is unused and the
    /// ready queue has room.
    pub open spec fn can_spawn(self, task: Task) -> bool {
        !self.tasks.contains_key(task.id()@) && self.queue.len() < self.capacity
    }

    /// The state after `task` was spawned.
    pub open spec fn spawn(self, task: Task) -> ExecutorView {
        ExecutorView {
            tasks: self.tasks.insert(task.id()@, task),
            queue: self.queue.push(task.id()@),
            ..self
        }
    }

    /// The state after the handle of task `id` was invoked.
    pub open spec fn wake(self, id: u64) -> ExecutorView {
        ExecutorView { queue: self.queue.push(id), ..self }
    }

    /// The state after the first identifier was taken from the queue.
    pub open spec fn pop(self) -> ExecutorView {
        ExecutorView { queue: self.queue.drop_first(), ..self }
    }

    /// The state after task `id` was handed its resumption handle and its
    /// computation was advanced, which left the task as `task`.
    pub open spec fn poll(self, id: u64, task: Task) -> ExecutorView {
        ExecutorView { tasks: self.tasks.insert(id, task), wakers: self.wakers.insert(id), ..self }
    }

    /// The state after the outcome of advancing task `id` was recorded: a
    /// finished task leaves the table and the cache, a suspended one stays.
    pub open spec fn settle(self, id: u64, outcome: Poll<()>) -> ExecutorView {
        match outcome {
            Poll::Ready(_) => ExecutorView {
                tasks: self.tasks.remove(id),
                wakers: self.wakers.remove(id),
                ..self
            },
            Poll::Pending => self,
        }
    }

    /// Whether `task` is what one advance can leave of the task `prior`
    /// of number `id`: the same identifier, and the same log with one
    /// advance more at its end, which reported `outcome` and was handed the
    /// handle of the task's own identifier.
    pub open spec fn advance_of(task: Task, prior: Task, id: u64, outcome: Poll<()>) -> bool {
        &&& task.id() == prior.id()
        &&& task.log().len() > 0
        &&& task.log() == prior.log().push(task.log().last())
        &&& task.log().last().0 == outcome
        &&& task.log().last().1@ == id
    }

    /// Whether this state is what advancing `id` once can leave of
    /// `before`. An identifier that names no live task changes nothing. A
    /// live task is handed the handle of its own identifier and advanced
    /// exactly once, and the outcome that it reports is the one recorded,
    /// whatever the computation did.
    pub open spec fn advanced(self, before: ExecutorView, id: u64) -> bool {
        if before.tasks.contains_key(id) {
            exists|task: Task, outcome: Poll<()>|
                ExecutorView::advance_of(task, before.tasks[id], id, outcome) && self
                    == #[trigger] before.poll(id, task).settle(id, outcome)
        } else {
            self == before
        }
    }
}

/// How often `id` stands in `ids`.
pub open spec fn occurrences(ids: Seq<u64>, id: u64) -> nat
    decreases ids.len(),
{
    if ids.len() == 0 {
        0
    } else if ids.last() == id {
        occurrences(ids.drop_last(), id) + 1
    } else {
        occurrences(ids.drop_last(), id)
    }
}

impl ExecutorView {
    /// Whether this state is what a pass over the ready queue leaves of
    /// `before` once it has taken the first `taken` identifiers: the chain
    /// of its advances. Nothing taken, nothing has changed. Else the pass
    /// has first taken one identifier less, and has then taken
    /// `before.queue[taken - 1]` from the queue and advanced it.
    pub open spec fn passed(self, before: ExecutorView, taken: nat) -> bool
        decreases taken,
    {
        if taken == 0 {
            self == before
        } else {
            &&& taken <= before.queue.len()
            &&& exists|middle: ExecutorView|
                middle.passed(before, (taken - 1) as nat) && self.advanced(
                    #[trigger] middle.pop(),
                    before.queue[taken - 1],
                )
        }
    }

    /// What a pass that has taken the first `taken` identifiers of
    /// `before` has left alone, and what it has not. The rest of the queue
    /// is still to come. No task has appeared or changed its identifier.
    /// What the pass did not take is as it was. And of what it took, a
    /// task that is still live has its handle cached and has been advanced
    /// once for each of its entries.
    pub open spec fn swept(self, before: ExecutorView, taken: nat) -> bool {
        &&& taken <= before.queue.len()
        &&& self.queue == before.queue.skip(taken as int)
        &&& self.capacity == before.capacity
        &&& forall|k: u64| #[trigger]
            self.tasks.contains_key(k) ==> before.tasks.contains_key(k) && self.tasks[k].id()
                == before.tasks[k].id()
        &&& forall|k: u64|
            !(#[trigger] before.queue.take(taken as int).contains(k)) ==> {
                &&& self.tasks.contains_key(k) == before.tasks.contains_key(k)
                &&& before.tasks.contains_key(k) ==> self.tasks[k] == before.tasks[k]
                &&& self.wakers.contains(k) == before.wakers.contains(k)
            }
        &&& forall|k: u64| #[trigger]
            before.queue.take(taken as int).contains(k) ==> self.wakers.contains(k)
                == self.tasks.contains_key(k)
        &&& forall|k: u64| #[trigger]
            self.tasks.contains_key(k) ==> self.tasks[k].polls() == before.tasks[k].polls()
                + occurrences(before.queue.take(taken as int), k)
    }

    /// Whether no identifier on the ready queue names a live task.
    pub open spec fn all_stale(self) -> bool {
        forall|k: u64| #[trigger] self.queue.contains(k) ==> !self.tasks.contains_key(k)
    }

    /// Whether this state is what one pass over the ready queue can leave
    /// of `before`: the pass has taken every identifier, and the queue is
    /// empty.
    pub open spec fn drained(self, before: ExecutorView) -> bool {
        self.passed(before, before.queue.len())
    }
}

impl ExecutorView {
    /// The state after every task of `tasks` was spawned, in order.
    pub open spec fn spawn_all(self, tasks: Seq<Task>) -> ExecutorView
        decreases tasks.len(),
    {
        if tasks.len() == 0 {
            self
        } else {
            self.spawn_all(tasks.drop_last()).spawn(tasks.last())
        }
    }

    /// Whether every task of `tasks` can be spawned when its turn comes.
    pub open spec fn can_spawn_all(self, tasks: Seq<Task>) -> bool
        decreases tasks.len(),
    {
        tasks.len() == 0 || (self.can_spawn_all(tasks.drop_last()) && self.spawn_all(
            tasks.drop_last(),
        ).can_spawn(tasks.last()))
    }
}

/// The numbers of the identifiers of `tasks`, in order.
pub open spec fn task_numbers(tasks: Seq<Task>) -> Seq<u64> {
    Seq::new(tasks.len(), |i: int| tasks[i].id()@)
}

/// Whether the tasks have identifiers that differ from each other and from
/// those of the live tasks of `state`.
pub open spec fn fresh_tasks(state: ExecutorView, tasks: Seq<Task>) -> bool {
    &&& forall|i: int|
        0 <= i < tasks.len() ==> !state.tasks.contains_key(#[trigger] tasks[i].id()@)
    &&& forall|i: int, j: int|
        0 <= i < j < tasks.len() ==> #[trigger] tasks[i].id()@ != #[trigger] tasks[j].id()@
}

/// Spawning never drops work: the identifiers of the spawned tasks stand
/// on the ready queue behind what was there, in the order of spawning, and
/// every spawned task is live.
pub proof fn lemma_spawn_all_queues_every_task(state: ExecutorView, tasks: Seq<Task>)
    ensures
        state.spawn_all(tasks).queue == state.queue + task_numbers(tasks),
        state.spawn_all(tasks).capacity == state.capacity,
        state.spawn_all(tasks).wakers == state.wakers,
        forall|k: u64| #[trigger]
            state.spawn_all(tasks).tasks.contains_key(k) <==> state.tasks.contains_key(k)
                || task_numbers(tasks).contains(k),
    decreases tasks.len(),
{
    if tasks.len() == 0 {
        assert(state.queue + task_numbers(tasks) =~= state.queue);
        assert(task_numbers(tasks) =~= Seq::<u64>::empty());
    } else {
        let init = tasks.drop_last();
        let last = tasks.last();
        lemma_spawn_all_queues_every_task(state, init);
        assert(task_numbers(tasks) =~= task_numbers(init).push(last.id()@));
        lemma_push_keeps(task_numbers(init), last.id()@);
        assert forall|k: u64|
            state.spawn_all(tasks).tasks.contains_key(k) <==> state.tasks.contains_key(k)
                || task_numbers(tasks).contains(k) by {
            if task_numbers(tasks).contains(k) && k != last.id()@ {
                let i = choose|i: int|
                    0 <= i < task_numbers(tasks).len() && task_numbers(tasks)[i] == k;
                assert(task_numbers(init)[i] == k);
            }
        }
    }
}

/// The capacity bounds the spawns: tasks with fresh identifiers can all be
/// spawned exactly when the ready queue has room for all of them. So from
/// a queue with room for `n`, the first `n` spawns are in order and the
/// next one is not: its demand for room cannot be met.
pub proof fn lemma_spawn_up_to_capacity(state: ExecutorView, tasks: Seq<Task>)
    requires
        state.wf(),
        fresh_tasks(state, tasks),
    ensures
        state.can_spawn_all(tasks) <==> state.queue.len() + tasks.len() <= state.capacity,
        state.queue.len() + tasks.len() == state.capacity + 1 ==> state.can_spawn_all(
            tasks.drop_last(),
        ) && !state.spawn_all(tasks.drop_last()).can_spawn(tasks.last()),
    decreases tasks.len(),
{
    if tasks.len() > 0 {
        let init = tasks.drop_last();
        let last = tasks.last();
        lemma_spawn_up_to_capacity(state, init);
        lemma_spawn_all_queues_every_task(state, init);
        assert(!state.spawn_all(init).tasks.contains_key(last.id()@)) by {
            if task_numbers(init).contains(last.id()@) {
                let i = choose|i: int|
                    0 <= i < task_numbers(init).len() && task_numbers(init)[i] == last.id()@;
                assert(tasks[i].id()@ != tasks[tasks.len() - 1].id()@);
            }
        }
    }
}

/// The spawn beyond the capacity is refused, and nothing is lost by it:
/// once fresh tasks have been spawned until the ready queue is full, every
/// one of them is queued behind what was there, in the order of spawning,
/// and no task whatever can be spawned: its demand for room cannot be met.
pub proof fn lemma_full_queue_admits_no_spawn(
    state: ExecutorView,
    tasks: Seq<Task>,
    one_more: Task,
)
    requires
        state.wf(),
        fresh_tasks(state, tasks),
        state.queue.len() + tasks.len() == state.capacity,
    ensures
        state.can_spawn_all(tasks),
        state.spawn_all(tasks).queue == state.queue + task_numbers(tasks),
        state.spawn_all(tasks).queue.len() == state.capacity,
        !state.spawn_all(tasks).can_spawn(one_more),
{
    lemma_spawn_up_to_capacity(state, tasks);
    lemma_spawn_all_queues_every_task(state, tasks);
}

/// Completion removes all traces: once a task has reported that it has
/// finished, it is in neither the table nor the handle cache, the
/// invariant holds, and an identifier of it that is still queued changes
/// nothing when its turn comes.
pub proof fn lemma_completion_removes_all_traces(
    state: ExecutorView,
    id: u64,
    after: ExecutorView,
)
    requires
        state.wf(),
    ensures
        !state.settle(id, Poll::Ready(())).tasks.contains_key(id),
        !state.settle(id, Poll::Ready(())).wakers.contains(id),
        state.settle(id, Poll::Ready(())).wf(),
        after.advanced(state.settle(id, Poll::Ready(())), id) ==> after == state.settle(
            id,
            Poll::Ready(()),
        ),
{
}

/// A pass goes on by one advance: from what it has left after `taken`
/// identifiers, taking the next one from the queue and advancing it leaves
/// what the pass has left after `taken + 1`.
pub proof fn lemma_pass_goes_on(
    after: ExecutorView,
    middle: ExecutorView,
    before: ExecutorView,
    taken: nat,
)
    requires
        taken < before.queue.len(),
        middle.passed(before, taken),
        after.advanced(middle.pop(), before.queue[taken as int]),
    ensures
        after.passed(before, taken + 1),
{
    assert(middle.passed(before, (taken + 1 - 1) as nat));
    assert(after.advanced(middle.pop(), before.queue[taken + 1 - 1]));
}

/// Advancing one task leaves the queue and every other task alone, and
/// leaves the task itself live with a cached handle or gone without one.
pub proof fn lemma_advanced_frame(after: ExecutorView, before: ExecutorView, id: u64)
    requires
        before.wf_taken(id),
        after.advanced(before, id),
    ensures
        after.queue == before.queue,
        after.capacity == before.capacity,
        forall|k: u64|
            k != id ==> {
                &&& #[trigger] after.tasks.contains_key(k) == before.tasks.contains_key(k)
                &&& before.tasks.contains_key(k) ==> after.tasks[k] == before.tasks[k]
                &&& after.wakers.contains(k) == before.wakers.contains(k)
            },
        after.tasks.contains_key(id) ==> before.tasks.contains_key(id) && after.tasks[id].id()
            == before.tasks[id].id() && after.tasks[id].polls() == before.tasks[id].polls() + 1,
        after.wakers.contains(id) == after.tasks.contains_key(id),
{
    if before.tasks.contains_key(id) {
        let (task, outcome) = choose|task: Task, outcome: Poll<()>|
            ExecutorView::advance_of(task, before.tasks[id], id, outcome) && after
                == #[trigger] before.poll(id, task).settle(id, outcome);
        assert(after == before.poll(id, task).settle(id, outcome));
    }
}

impl TaskWaker {
    /// The handle of the task with this identifier.
    pub fn new(task_id: TaskId) -> (waker: TaskWaker)
        ensures
            waker@ == task_id@,
    {
        TaskWaker { task_id }
    }

    /// The identifier of the task that the handle resumes.
    pub fn task_id(&self) -> (id: TaskId)
        ensures
            id@ == self@,
    {
        self.task_id
    }

    /// Two handles are the same exactly when they resume the same task:
    /// a task has one handle, and whoever holds a handle of its number
    /// holds that one.
    pub proof fn lemma_eq_by_number(a: TaskWaker, b: TaskWaker)
        ensures
            (a == b) == (a@ == b@),
    {
        TaskId::lemma_eq_by_number(a.task_id, b.task_id);
    }

    fn wake_task(&self, task_queue: &mut ArrayQueue<u64>)
        requires
            id_queue_items(*old(task_queue)).len() < id_queue_capacity(*old(task_queue)),
        ensures
            id_queue_items(*final(task_queue)) == id_queue_items(*old(task_queue)).push(self@),
            id_queue_capacity(*final(task_queue)) == id_queue_capacity(*old(task_queue)),
    {
        let _ = id_queue_push(task_queue, self.task_id.as_u64());
    }

    /// Invokes the handle and gives it up: the task's identifier goes to
    /// the back of the scheduler's ready queue. A full queue cannot record
    /// the wakeup, so the caller must rule it out.
    pub fn wake(self, executor: &mut Executor)
        requires
            old(executor).wf(),
            old(executor)@.queue.len() < old(executor)@.capacity,
        ensures
            final(executor).wf(),
            final(executor)@ == old(executor)@.wake(self@),
    {
        self.wake_by_ref(executor);
    }

    /// Invokes the handle and keeps it: the task's identifier goes to the
    /// back of the scheduler's ready queue.
    pub fn wake_by_ref(&self, executor: &mut Executor)
        requires
            old(executor).wf(),
            old(executor)@.queue.len() < old(executor)@.capacity,
        ensures
            final(executor).wf(),
            final(executor)@ == old(executor)@.wake(self@),
    {
        self.wake_task(&mut executor.task_queue);
        proof {
            lemma_push_keeps(old(executor)@.queue, self@);
            assert(executor@ =~= old(executor)@.wake(self@));
        }
    }
}

/// Pushing onto a sequence keeps what it contained, and adds the value.
pub proof fn lemma_push_keeps<A>(s: Seq<A>, value: A)
    ensures
        s.push(value).contains(value),
        forall|x: A| s.contains(x) ==> #[trigger] s.push(value).contains(x),
{
    assert(s.push(value)[s.len() as int] == value);
    assert forall|x: A| s.contains(x) implies #[trigger] s.push(value).contains(x) by {
        let i = choose|i: int| 0 <= i < s.len() && s[i] == x;
        assert(s.push(value)[i] == x);
    }
}

/// What a non-empty sequence contains is its first element or contained
/// in the rest.
pub proof fn lemma_drop_first_keeps<A>(s: Seq<A>)
    requires
        s.len() > 0,
    ensures
        forall|x: A| #[trigger] s.contains(x) ==> x == s[0] || s.drop_first().contains(x),
        forall|x: A| #[trigger] s.drop_first().contains(x) ==> s.contains(x),
{
    assert forall|x: A| #[trigger] s.contains(x) implies x == s[0] || s.drop_first().contains(
        x,
    ) by {
        let i = choose|i: int| 0 <= i < s.len() && s[i] == x;
        if i > 0 {
            assert(s.drop_first()[i - 1] == x);
        }
    }
    assert forall|x: A| #[trigger] s.drop_first().contains(x) implies s.contains(x) by {
        let i = choose|i: int| 0 <= i < s.drop_first().len() && s.drop_first()[i] == x;
        assert(s[i + 1] == x);
    }
}

/// The scheduler. It owns the live tasks, keyed by identifier, the bounded
/// ready queue of identifiers, and one resumption handle for each task that
/// it has advanced.
pub struct Executor {
    tasks: BTreeMap<u64, Task>,
    task_queue: ArrayQueue<u64>,
    waker_cache: BTreeMap<u64, TaskWaker>,
}

impl View for Executor {
    type V = ExecutorView;

    closed spec fn view(&self) -> ExecutorView {
        ExecutorView {
            tasks: self.tasks@,
            queue: id_queue_items(self.task_queue),
            wakers: self.waker_cache@.dom(),
            capacity: id_queue_capacity(self.task_queue),
        }
    }
}

impl Executor {
    /// Every cached handle resumes the task that it is cached for.
    pub closed spec fn handles_match(&self) -> bool {
        forall|k: u64| #[trigger]
            self.waker_cache@.contains_key(k) ==> self.waker_cache@[k]@ == k
    }

    /// The handle that is cached for the task of number `id`.
    pub closed spec fn cached(&self, id: u64) -> TaskWaker {
        self.waker_cache@[id]
    }

    /// A task has one handle: a handle of the number of a task whose
    /// handle is cached is the cached one.
    pub proof fn lemma_cached_handle(&self, id: u64, handed: TaskWaker)
        requires
            self.handles_match(),
            self@.wakers.contains(id),
            handed@ == id,
        ensures
            self.cached(id) == handed,
    {
        assert(self.waker_cache@.contains_key(id));
        TaskWaker::lemma_eq_by_number(self.cached(id), handed);
    }

    /// The scheduler's invariant.
    pub open spec fn wf(&self) -> bool {
        self@.wf() && self.handles_match()
    }

    spec fn wf_taken(&self, id: u64) -> bool {
        self@.wf_taken(id) && self.handles_match()
    }

    /// A scheduler with no task and a ready queue of the default capacity.
    pub fn new() -> (executor: Executor)
        ensures
            executor.wf(),
            executor@ == ExecutorView::empty(DEFAULT_CAPACITY as nat),
    {
        Executor::with_capacity(DEFAULT_CAPACITY)
    }

    /// A scheduler with no task and a ready queue of the given capacity.
    pub fn with_capacity(capacity: usize) -> (executor: Executor)
        requires
            valid_capacity(capacity),
        ensures
            executor.wf(),
            executor@ == ExecutorView::empty(capacity as nat),
    {
        let executor = Executor {
            tasks: BTreeMap::new(),
            task_queue: id_queue_new(capacity),
            waker_cache: BTreeMap::new(),
        };
        executor
    }

    /// Whether `task` can be spawned: its identifier is unused and the
    /// ready queue has room.
    pub fn can_spawn(&self, task: &Task) -> (possible: bool)
        ensures
            possible == self@.can_spawn(*task),
    {
        let key: u64 = task.task_id().as_u64();
        !self.tasks.contains_key(&key) && id_queue_len(&self.task_queue) < id_queue_limit(
            &self.task_queue,
        )
    }

    /// Takes the task into the table and puts its identifier on the ready
    /// queue. A used identifier or a full queue is the caller's error.
    pub fn spawn(&mut self, task: Task)
        requires
            old(self).wf(),
            old(self)@.can_spawn(task),
        ensures
            final(self).wf(),
            final(self)@ == old(self)@.spawn(task),
    {
        let task_id: TaskId = task.task_id();
        let key: u64 = task_id.as_u64();
        let _ = self.tasks.insert(key, task);
        let _ = id_queue_push(&mut self.task_queue, key);
        proof {
            lemma_push_keeps(old(self)@.queue, key);
            assert(final(self)@ =~= old(self)@.spawn(task));
        }
    }

    /// The resumption handle of a live task: the cached one, or a new one
    /// that is cached from now on.
    fn cached_waker(&mut self, task_id: TaskId) -> (waker: TaskWaker)
        requires
            old(self).handles_match(),
        ensures
            final(self).handles_match(),
            waker@ == task_id@,
            final(self)@ == (ExecutorView {
                wakers: old(self)@.wakers.insert(task_id@),
                ..old(self)@
            }),
    {
        let key: u64 = task_id.as_u64();
        if !self.waker_cache.contains_key(&key) {
            let _ = self.waker_cache.insert(key, TaskWaker::new(task_id));
        }
        let waker: TaskWaker = match self.waker_cache.get(&key) {
            Some(cached) => *cached,
            None => TaskWaker::new(task_id),
        };
        waker
    }

    /// Records the outcome of advancing a task: a task that has finished
    /// leaves the table, and its handle leaves the cache; a task that has
    /// suspended stays, dormant until its handle is invoked.
    pub fn settle(&mut self, task_id: TaskId, outcome: Poll<()>)
        requires
            old(self).wf(),
        ensures
            final(self).wf(),
            final(self)@ == old(self)@.settle(task_id@, outcome),
    {
        match outcome {
            Poll::Ready(_) => {
                let key: u64 = task_id.as_u64();
                let _ = self.tasks.remove(&key);
                let _ = self.waker_cache.remove(&key);
                assert(self@ =~= old(self)@.settle(task_id@, outcome));
            },
            Poll::Pending => {},
        }
    }

    fn advance(&mut self, task_id: TaskId, keyboard: &mut EventBridge)
        requires
            old(self).wf_taken(task_id@),
        ensures
            final(self).wf(),
            final(self)@.advanced(old(self)@, task_id@),
            !old(self)@.tasks.contains_key(task_id@) ==> final(keyboard)@ == old(keyboard)@,
    {
        let key: u64 = task_id.as_u64();
        let mut task: Task = match self.tasks.remove(&key) {
            Some(task) => task,
            None => {
                assert(self@ =~= old(self)@);
                return ;
            },
        };
        let waker: TaskWaker = self.cached_waker(task_id);
        let mut context = Context { waker, keyboard };
        let outcome: Poll<()> = task.poll(&mut context);
        let _ = self.tasks.insert(key, task);
        assert(self@ =~= old(self)@.poll(key, task));
        self.settle(task_id, outcome);
    }

    /// Advances the task with this identifier once. An identifier that
    /// names no live task is ignored: it is the trace of a wakeup that came
    /// after the task had finished. A live task is handed its resumption
    /// handle, which is created on the first advance and reused afterwards;
    /// if it finishes it is removed together with its handle, and if it
    /// suspends both stay. The identifier may have just been taken from
    /// the ready queue: its task need not be queued any more.
    pub fn run_task(&mut self, task_id: TaskId, keyboard: &mut EventBridge)
        requires
            old(self)@.wf_taken(task_id@),
            old(self).handles_match(),
        ensures
            final(self).wf(),
            final(self)@.advanced(old(self)@, task_id@),
            !old(self)@.tasks.contains_key(task_id@) ==> final(keyboard)@ == old(keyboard)@,
    {
        self.advance(task_id, keyboard);
    }

    /// Takes the first identifier from the ready queue and advances its
    /// task once. An empty queue is the caller's error.
    pub fn run_first_task_in_queue(&mut self, keyboard: &mut EventBridge)
        requires
            old(self).wf(),
            old(self)@.queue.len() > 0,
        ensures
            final(self).wf(),
            final(self)@.advanced(old(self)@.pop(), old(self)@.queue[0]),
            !old(self)@.tasks.contains_key(old(self)@.queue[0]) ==> final(keyboard)@ == old(
                keyboard,
            )@,
    {
        let popped: Option<u64> = id_queue_pop(&mut self.task_queue);
        proof {
            lemma_drop_first_keeps(old(self)@.queue);
            assert(self@ =~= old(self)@.pop());
        }
        match popped {
            Some(key) => {
                self.advance(TaskId::from_u64(key), keyboard);
            },
            None => {},
        }
    }

    /// One pass over the ready queue: takes identifier after identifier
    /// and advances each, until the queue is empty. A computation cannot
    /// reach the ready queue while it is advanced, so the pass ends.
    pub fn run_ready_tasks(&mut self, keyboard: &mut EventBridge)
        requires
            old(self).wf(),
        ensures
            final(self).wf(),
            final(self)@.queue.len() == 0,
            final(self)@.drained(old(self)@),
            final(self)@.swept(old(self)@, old(self)@.queue.len()),
            old(self)@.all_stale() ==> final(keyboard)@ == old(keyboard)@,
    {
        let ghost before = self@;
        let ghost mut taken: nat = 0;
        proof {
            assert(before.queue.skip(0) =~= before.queue);
        }
        loop
            invariant
                self.wf(),
                self@.passed(before, taken),
                self@.swept(before, taken),
                before.all_stale() ==> keyboard@ == old(keyboard)@,
            ensures
                self@.queue.len() == 0,
                taken == before.queue.len(),
            decreases self@.queue.len(),
        {
            let ghost current = self@;
            let popped: Option<u64> = id_queue_pop(&mut self.task_queue);
            match popped {
                Some(key) => {
                    proof {
                        lemma_drop_first_keeps(current.queue);
                        assert(self@ =~= current.pop());
                        assert(key == before.queue[taken as int]);
                        assert(before.queue.contains(key));
                    }
                    self.advance(TaskId::from_u64(key), keyboard);
                    proof {
                        lemma_advanced_frame(self@, current.pop(), key);
                        let next = taken + 1;
                        assert(before.queue.skip(taken as int).drop_first() =~= before.queue.skip(
                            next as int,
                        ));
                        assert(before.queue.take(next as int) =~= before.queue.take(
                            taken as int,
                        ).push(key));
                        lemma_push_keeps(before.queue.take(taken as int), key);
                        assert forall|k: u64|
                            !(#[trigger] before.queue.take(next as int).contains(k)) implies {
                            &&& self@.tasks.contains_key(k) == before.tasks.contains_key(k)
                            &&& before.tasks.contains_key(k) ==> self@.tasks[k] == before.tasks[k]
                            &&& self@.wakers.contains(k) == before.wakers.contains(k)
                        } by {
                            assert(!before.queue.take(taken as int).contains(k));
                            assert(k != key);
                        }
                        assert forall|k: u64| #[trigger]
                            before.queue.take(next as int).contains(k) implies self@.wakers.contains(
                            k,
                        ) == self@.tasks.contains_key(k) by {
                            if k != key {
                                let i = choose|i: int|
                                    0 <= i < before.queue.take(next as int).len()
                                        && before.queue.take(next as int)[i] == k;
                                assert(before.queue.take(taken as int)[i] == k);
                                assert(before.queue.take(taken as int).contains(k));
                            }
                        }
                        assert forall|k: u64| #[trigger]
                            self@.tasks.contains_key(k) implies self@.tasks[k].polls()
                            == before.tasks[k].polls() + occurrences(
                            before.queue.take(next as int),
                            k,
                        ) by {
                            assert(before.queue.take(next as int).drop_last()
                                =~= before.queue.take(taken as int));
                            assert(before.queue.take(next as int).last() == key);
                            assert(current.tasks.contains_key(k));
                        }
                        lemma_pass_goes_on(self@, current, before, taken);
                        taken = next;
                    }
                },
                None => {
                    break ;
                },
            }
        }
    }

    /// What to do about an empty ready queue. The caller has disabled
    /// interrupts; it re-enables them as the answer says.
    pub fn sleep_if_idle(&self) -> (action: IdleAction)
        ensures
            action == idle_action(self@.queue.len()),
    {
        if id_queue_is_empty(&self.task_queue) {
            IdleAction::EnableAndHalt
        } else {
            IdleAction::Enable
        }
    }

    /// The number of identifiers on the ready queue.
    pub fn queue_len(&self) -> (len: usize)
        ensures
            len == self@.queue.len(),
    {
        id_queue_len(&self.task_queue)
    }

    /// The capacity of the ready queue.
    pub fn queue_capacity(&self) -> (capacity: usize)
        ensures
            capacity == self@.capacity,
    {
        id_queue_limit(&self.task_queue)
    }

    /// The number of live tasks.
    pub fn task_count(&self) -> (count: usize)
        ensures
            count == self@.tasks.len(),
    {
        self.tasks.len()
    }

    /// Whether a task with this identifier is live.
    pub fn contains_task(&self, task_id: TaskId) -> (live: bool)
        ensures
            live == self@.tasks.contains_key(task_id@),
    {
        let key: u64 = task_id.as_u64();
        self.tasks.contains_key(&key)
    }

    /// Whether the resumption handle of the task with the given identifier is
    /// cached.
    pub fn has_waker(&self, task_id: TaskId) -> (cached: bool)
        ensures
            cached == self@.wakers.contains(task_id@),
    {
        let key: u64 = task_id.as_u64();
        self.waker_cache.contains_key(&key)
    }
}

impl Default for Executor {
    fn default() -> (executor: Executor)
        ensures
            executor.wf(),
            executor@ == ExecutorView::empty(DEFAULT_CAPACITY as nat),
    {
        Executor::new()
    }
}

} // verus!
