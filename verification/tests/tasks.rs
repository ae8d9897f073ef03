use rinuxcore::task::keyboard::EventBridge;
use rinuxcore::task::simple_executor::run;
use rinuxcore::task::{Computation, Context, Poll, Task, TaskIdCounter};
use std::cell::RefCell;
use std::rc::Rc;

/// Finishes on the advance with the given number, counting from one.
struct Countdown {
    left: u32,
    polls: Rc<RefCell<u32>>,
}

impl Computation for Countdown {
    fn poll(&mut self, _context: &mut Context) -> Poll<()> {
        *self.polls.borrow_mut() += 1;
        self.left -= 1;
        if self.left == 0 {
            Poll::Ready(())
        } else {
            Poll::Pending
        }
    }
}

/// Records the number of the task whose handle it is given.
struct SeesWaker {
    seen: Rc<RefCell<Vec<u64>>>,
}

impl Computation for SeesWaker {
    fn poll(&mut self, context: &mut Context) -> Poll<()> {
        self.seen.borrow_mut().push(context.waker.task_id().as_u64());
        Poll::Ready(())
    }
}

fn countdown(ids: &mut TaskIdCounter, left: u32) -> (Task, Rc<RefCell<u32>>) {
    let polls = Rc::new(RefCell::new(0));
    (Task::new(ids, Countdown { left, polls: polls.clone() }), polls)
}

#[test]
fn tasks_are_equal_by_identifier_only() {
    let mut first = TaskIdCounter::new();
    let mut second = TaskIdCounter::new();
    let (a, _) = countdown(&mut first, 1);
    let (b, _) = countdown(&mut first, 1);
    let (twin, _) = countdown(&mut second, 5);
    assert!(a == twin);
    assert!(a != b);
    assert!(b != twin);
}

#[test]
fn tasks_are_ordered_by_identifier() {
    let mut ids = TaskIdCounter::new();
    let (a, _) = countdown(&mut ids, 1);
    let (b, _) = countdown(&mut ids, 1);
    assert!(a < b);
    assert!(a <= b);
    assert!(b > a);
    assert!(b >= a);
    assert!(!(b < a));
    assert_eq!(a.partial_cmp(&b), Some(std::cmp::Ordering::Less));
    assert_eq!(b.partial_cmp(&a), Some(std::cmp::Ordering::Greater));
    assert_eq!(a.partial_cmp(&a), Some(std::cmp::Ordering::Equal));
}

#[test]
fn poll_advances_the_computation_once() {
    let mut ids = TaskIdCounter::new();
    let mut keyboard = EventBridge::new();
    let (mut task, polls) = countdown(&mut ids, 2);
    let waker = rinuxcore::task::executor::TaskWaker::new(task.task_id());
    let first = task.poll(&mut Context { waker, keyboard: &mut keyboard });
    assert_eq!(first, Poll::Pending);
    assert!(first.is_pending());
    assert!(!first.is_ready());
    let second = task.poll(&mut Context { waker, keyboard: &mut keyboard });
    assert_eq!(second, Poll::Ready(()));
    assert!(second.is_ready());
    assert_eq!(*polls.borrow(), 2);
    assert_eq!(task.task_id().as_u64(), 0);
}

#[test]
fn simple_runner_spins_until_completion() {
    let mut ids = TaskIdCounter::new();
    let mut keyboard = EventBridge::new();
    let (task, polls) = countdown(&mut ids, 4);
    let id = task.task_id();
    let (finished, outcome) = run(task, &mut keyboard, 10);
    assert_eq!(outcome, Poll::Ready(()));
    assert_eq!(*polls.borrow(), 4);
    assert_eq!(finished.task_id(), id);
}

#[test]
fn simple_runner_returns_an_unfinished_task() {
    let mut ids = TaskIdCounter::new();
    let mut keyboard = EventBridge::new();
    let (task, polls) = countdown(&mut ids, 4);
    let id = task.task_id();
    let (rest, outcome) = run(task, &mut keyboard, 3);
    assert_eq!(outcome, Poll::Pending);
    assert_eq!(*polls.borrow(), 3);
    assert_eq!(rest.task_id(), id);
    let (_, outcome) = run(rest, &mut keyboard, 1);
    assert_eq!(outcome, Poll::Ready(()));
    assert_eq!(*polls.borrow(), 4);
}

#[test]
fn simple_runner_stops_at_the_advance_that_finishes() {
    let mut ids = TaskIdCounter::new();
    let mut keyboard = EventBridge::new();
    let (task, polls) = countdown(&mut ids, 1);
    let (_, outcome) = run(task, &mut keyboard, u64::MAX);
    assert_eq!(outcome, Poll::Ready(()));
    assert_eq!(*polls.borrow(), 1);
}

#[test]
fn simple_runner_with_no_budget_does_not_advance() {
    let mut ids = TaskIdCounter::new();
    let mut keyboard = EventBridge::new();
    let (task, polls) = countdown(&mut ids, 1);
    let id = task.task_id();
    let (rest, outcome) = run(task, &mut keyboard, 0);
    assert_eq!(outcome, Poll::Pending);
    assert_eq!(*polls.borrow(), 0);
    assert_eq!(rest.task_id(), id);
}

#[test]
fn simple_runner_hands_the_task_its_own_handle() {
    let mut ids = TaskIdCounter::new();
    let mut keyboard = EventBridge::new();
    let _ = rinuxcore::task::TaskId::new(&mut ids);
    let seen = Rc::new(RefCell::new(Vec::new()));
    let task = Task::new(&mut ids, SeesWaker { seen: seen.clone() });
    let (_, outcome) = run(task, &mut keyboard, 1);
    assert_eq!(outcome, Poll::Ready(()));
    assert_eq!(*seen.borrow(), vec![1]);
}
