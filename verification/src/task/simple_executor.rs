//! The minimal runner: one task, no queue, no halt. It serves before the
//! scheduler and the interrupts that feed it are up.

use super::executor::TaskWaker;
use super::keyboard::EventBridge;
use super::{Context, Poll, Task};
use vstd::prelude::*;

verus! {

/// Advances the task again and again, without pause, until it reports
/// that it has finished or has been advanced `budget` times. Each advance
/// hands the task the handle of its own identifier, and none follows an
/// advance that reported `Ready`. The task comes back together with the
/// outcome of its last advance: `Ready` for a task that has finished,
/// `Pending` for one that was advanced `budget` times and is to be run
/// further. With a budget of zero the task is not advanced at all, and
/// comes back as it was.
pub fn run(task: Task, keyboard: &mut EventBridge, budget: u64) -> (result: (Task, Poll<()>))
    ensures
        result.0.id() == task.id(),
        task.log().is_prefix_of(result.0.log()),
        budget == 0 ==> result.0 == task && result.1 is Pending && final(keyboard)@ == old(
            keyboard,
        )@,
        budget > 0 ==> task.polls() < result.0.polls() <= task.polls() + budget
            && result.0.log().last().0 == result.1,
        result.1 is Pending ==> result.0.polls() == task.polls() + budget,
        forall|i: int|
            task.log().len() <= i < result.0.log().len() ==> (#[trigger] result.0.log()[i]).1@
                == task.id()@,
        forall|i: int|
            task.log().len() <= i < result.0.log().len() - 1 ==> (#[trigger] result.0.log()[
                i
            ]).0 is Pending,
{
    let mut task: Task = task;
    let waker: TaskWaker = TaskWaker::new(task.task_id());
    let mut polls: u64 = 0;
    let mut outcome: Poll<()> = Poll::Pending;
    let ghost supplied = task;
    while polls < budget && outcome.is_pending()
        invariant
            polls <= budget,
            waker@ == supplied.id()@,
            task.id() == supplied.id(),
            supplied.log().is_prefix_of(task.log()),
            task.log().len() == supplied.log().len() + polls,
            polls == 0 ==> task == supplied && outcome is Pending && keyboard@ == old(keyboard)@,
            polls > 0 ==> task.log().last().0 == outcome,
            forall|i: int|
                supplied.log().len() <= i < task.log().len() ==> (#[trigger] task.log()[i]).1@
                    == supplied.id()@,
            forall|i: int|
                supplied.log().len() <= i < task.log().len() - 1 ==> (#[trigger] task.log()[
                    i
                ]).0 is Pending,
        decreases budget - polls,
    {
        let mut context = Context { waker, keyboard: &mut *keyboard };
        outcome = task.poll(&mut context);
        polls = polls + 1;
    }
    (task, outcome)
}

} // verus!
