use rinuxcore::task::executor::{Executor, TaskWaker};
use rinuxcore::task::keyboard::{
    add_scancode, init, EventBridge, ScancodeOutcome, ScancodeStream, SCANCODE_CAPACITY,
};
use rinuxcore::task::{Poll, TaskId, TaskIdCounter};

fn waker(ids: &mut TaskIdCounter) -> TaskWaker {
    TaskWaker::new(TaskId::new(ids))
}

#[test]
fn new_bridge_is_uninitialized() {
    let keyboard = EventBridge::new();
    assert!(!keyboard.is_initialized());
    assert_eq!(keyboard.unread(), 0);
    assert_eq!(keyboard.waiting(), None);
    assert_eq!(SCANCODE_CAPACITY, 100);
}

#[test]
fn scancode_before_initialization_is_dropped_and_reported() {
    let mut keyboard = EventBridge::new();
    let mut executor = Executor::new();
    let outcome = add_scancode(0x1E, &mut keyboard, &mut executor);
    assert_eq!(outcome, ScancodeOutcome::Uninitialized);
    assert_eq!(outcome.report(), Some("[ERR] scancode queue uninitialized\n"));
    assert!(!keyboard.is_initialized());
    assert_eq!(keyboard.unread(), 0);
    assert_eq!(executor.queue_len(), 0);
}

#[test]
fn scancodes_come_out_in_arrival_order() {
    let mut ids = TaskIdCounter::new();
    let mut keyboard = EventBridge::new();
    let mut executor = Executor::new();
    let mut stream = ScancodeStream::new(&mut keyboard);
    let consumer = waker(&mut ids);
    for scancode in [0x1Eu8, 0x30, 0x2E] {
        let outcome = add_scancode(scancode, &mut keyboard, &mut executor);
        assert_eq!(outcome, ScancodeOutcome::Delivered);
        assert_eq!(outcome.report(), None);
    }
    assert_eq!(keyboard.unread(), 3);
    assert_eq!(stream.poll_next(&mut keyboard, &consumer), Poll::Ready(Some(0x1E)));
    assert_eq!(stream.poll_next(&mut keyboard, &consumer), Poll::Ready(Some(0x30)));
    assert_eq!(stream.poll_next(&mut keyboard, &consumer), Poll::Ready(Some(0x2E)));
    assert_eq!(keyboard.waiting(), None);
    assert_eq!(stream.poll_next(&mut keyboard, &consumer), Poll::Pending);
    assert_eq!(keyboard.waiting(), Some(consumer));
    assert_eq!(executor.queue_len(), 0);
}

#[test]
fn full_scancode_queue_drops_and_reports() {
    let mut keyboard = EventBridge::new();
    let mut executor = Executor::new();
    init(&mut keyboard);
    for n in 0..100u8 {
        assert_eq!(add_scancode(n, &mut keyboard, &mut executor), ScancodeOutcome::Delivered);
    }
    assert_eq!(keyboard.unread(), 100);
    let outcome = add_scancode(200, &mut keyboard, &mut executor);
    assert_eq!(outcome, ScancodeOutcome::QueueFull);
    assert_eq!(
        outcome.report(),
        Some("[ERR] scancode queue full; dropping keyboard input\n")
    );
    assert_eq!(keyboard.unread(), 100);
    assert_eq!(keyboard.pop(), Some(0));
    assert_eq!(keyboard.unread(), 99);
}

#[test]
fn full_queue_does_not_use_up_the_registration() {
    let mut ids = TaskIdCounter::new();
    let mut keyboard = EventBridge::new();
    let mut executor = Executor::new();
    init(&mut keyboard);
    for n in 0..100u8 {
        add_scancode(n, &mut keyboard, &mut executor);
    }
    let consumer = waker(&mut ids);
    keyboard.register(&consumer);
    assert_eq!(add_scancode(7, &mut keyboard, &mut executor), ScancodeOutcome::QueueFull);
    assert_eq!(keyboard.waiting(), Some(consumer));
    assert_eq!(executor.queue_len(), 0);
}

#[test]
fn delivery_signals_the_waiting_consumer_once() {
    let mut ids = TaskIdCounter::new();
    let mut keyboard = EventBridge::new();
    let mut executor = Executor::new();
    let mut stream = ScancodeStream::new(&mut keyboard);
    let consumer = waker(&mut ids);
    assert_eq!(stream.poll_next(&mut keyboard, &consumer), Poll::Pending);
    assert_eq!(add_scancode(0x1E, &mut keyboard, &mut executor), ScancodeOutcome::Delivered);
    assert_eq!(executor.queue_len(), 1);
    assert_eq!(keyboard.waiting(), None);
    assert_eq!(add_scancode(0x9E, &mut keyboard, &mut executor), ScancodeOutcome::Delivered);
    assert_eq!(executor.queue_len(), 1);
    assert_eq!(stream.poll_next(&mut keyboard, &consumer), Poll::Ready(Some(0x1E)));
    assert_eq!(stream.poll_next(&mut keyboard, &consumer), Poll::Ready(Some(0x9E)));
}

#[test]
fn delivery_between_first_look_and_registration_is_found() {
    let mut ids = TaskIdCounter::new();
    let mut keyboard = EventBridge::new();
    let mut executor = Executor::new();
    init(&mut keyboard);
    let consumer = waker(&mut ids);
    assert_eq!(keyboard.pop(), None);
    assert_eq!(add_scancode(0x1E, &mut keyboard, &mut executor), ScancodeOutcome::Delivered);
    assert_eq!(executor.queue_len(), 0);
    keyboard.register(&consumer);
    assert_eq!(keyboard.recheck(), Poll::Ready(Some(0x1E)));
    assert_eq!(keyboard.waiting(), None);
    assert_eq!(keyboard.unread(), 0);
}

#[test]
fn delivery_after_registration_signals_and_is_found() {
    let mut ids = TaskIdCounter::new();
    let mut keyboard = EventBridge::new();
    let mut executor = Executor::new();
    init(&mut keyboard);
    let consumer = waker(&mut ids);
    assert_eq!(keyboard.pop(), None);
    keyboard.register(&consumer);
    assert_eq!(add_scancode(0x1E, &mut keyboard, &mut executor), ScancodeOutcome::Delivered);
    assert_eq!(executor.queue_len(), 1);
    assert_eq!(keyboard.recheck(), Poll::Ready(Some(0x1E)));
    assert_eq!(keyboard.unread(), 0);
}

#[test]
fn recheck_with_nothing_there_stays_registered() {
    let mut ids = TaskIdCounter::new();
    let mut keyboard = EventBridge::new();
    init(&mut keyboard);
    let consumer = waker(&mut ids);
    keyboard.register(&consumer);
    assert_eq!(keyboard.recheck(), Poll::Pending);
    assert_eq!(keyboard.waiting(), Some(consumer));
}

#[test]
fn later_registration_supersedes_the_earlier() {
    let mut ids = TaskIdCounter::new();
    let mut keyboard = EventBridge::new();
    let mut executor = Executor::new();
    init(&mut keyboard);
    let first = waker(&mut ids);
    let second = waker(&mut ids);
    keyboard.register(&first);
    keyboard.register(&second);
    assert_eq!(keyboard.waiting(), Some(second));
    assert_eq!(add_scancode(1, &mut keyboard, &mut executor), ScancodeOutcome::Delivered);
    assert_eq!(executor.queue_len(), 1);
    assert_eq!(keyboard.waiting(), None);
    assert_eq!(keyboard.take(), None);
}

#[test]
fn take_retracts_the_registration() {
    let mut ids = TaskIdCounter::new();
    let mut keyboard = EventBridge::new();
    let consumer = waker(&mut ids);
    keyboard.register(&consumer);
    assert_eq!(keyboard.take(), Some(consumer));
    assert_eq!(keyboard.waiting(), None);
}

#[test]
fn stream_report_respects_quiet_boot() {
    assert_eq!(ScancodeStream::report(false), Some("[OK] Scancode initialized\n"));
    assert_eq!(ScancodeStream::report(true), None);
}
