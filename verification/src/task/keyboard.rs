//! The event bridge between the keyboard interrupt and the computations
//! that wait for scancodes.
//!
//! The interrupt handler is the only producer: it calls `add_scancode`.
//! One consumer at a time reads through a `ScancodeStream`. Each function
//! here is one atomic step; an interrupt may fall between any two of them,
//! and the laws at the end of this file say why no scancode is then left
//! unread with its consumer asleep.

use super::executor::{Executor, ExecutorView, TaskWaker};
use super::keys::KeyDecoder;
use super::queue::{
    byte_queue_capacity, byte_queue_items, byte_queue_len, byte_queue_new, byte_queue_pop,
    byte_queue_push,
};
use super::Poll;
use crossbeam_queue::ArrayQueue;
use vstd::prelude::*;

verus! {

/// The number of unread scancodes that the bridge holds at most.
pub const SCANCODE_CAPACITY: usize = 100;

/// The state that the interrupt handler and the waiting consumer share: the
/// queue of unread scancodes, which exists once the bridge is initialized,
/// and the slot for the handle of the one consumer that waits.
pub struct EventBridge {
    scancode_queue: Option<ArrayQueue<u8>>,
    waker: Option<TaskWaker>,
}

/// The bridge as a value.
#[verifier::ext_equal]
pub struct BridgeView {
    /// The unread scancodes, oldest first; `None` before initialization.
    pub queue: Option<Seq<u8>>,
    /// The handle of the consumer that waits, if one is registered.
    pub waker: Option<TaskWaker>,
}

/// What became of a scancode that the interrupt handler delivered.
#[derive(Debug, Clone, Copy, PartialEq, Eq, Structural)]
pub enum ScancodeOutcome {
    /// The scancode was queued, and the waiting consumer, if any, signalled.
    Delivered,
    /// The queue was full: the scancode was dropped.
    QueueFull,
    /// The bridge was not initialized: the scancode was dropped.
    Uninitialized,
}

impl BridgeView {
    /// Whether the scancode queue exists.
    pub open spec fn initialized(self) -> bool {
        self.queue is Some
    }

    /// No more scancodes are held than the queue has room for.
    pub open spec fn wf(self) -> bool {
        self.queue is Some ==> self.queue.unwrap().len() <= SCANCODE_CAPACITY
    }

    /// The bridge after initialization: the queue exists and is empty.
    pub open spec fn init(self) -> BridgeView {
        BridgeView { queue: Some(Seq::empty()), ..self }
    }

    /// What becomes of a scancode delivered now.
    pub open spec fn outcome(self) -> ScancodeOutcome {
        match self.queue {
            None => ScancodeOutcome::Uninitialized,
            Some(queue) => if queue.len() < SCANCODE_CAPACITY {
                ScancodeOutcome::Delivered
            } else {
                ScancodeOutcome::QueueFull
            },
        }
    }

    /// The consumer that a delivery made now signals: the registered one,
    /// if the scancode is accepted.
    pub open spec fn signal(self) -> Option<TaskWaker> {
        if self.outcome() == ScancodeOutcome::Delivered {
            self.waker
        } else {
            None
        }
    }

    /// The scheduler after a delivery made now: the task of the consumer
    /// that the delivery signals, if any, is at the back of the ready
    /// queue, once.
    pub open spec fn wake(self, executor: ExecutorView) -> ExecutorView {
        match self.signal() {
            Some(waker) => executor.wake(waker@),
            None => executor,
        }
    }

    /// The bridge after a delivery: an accepted scancode is at the back of
    /// the queue and the slot is empty; a dropped one changes nothing.
    pub open spec fn push(self, scancode: u8) -> BridgeView {
        if self.outcome() == ScancodeOutcome::Delivered {
            BridgeView { queue: Some(self.queue.unwrap().push(scancode)), waker: None }
        } else {
            self
        }
    }

    /// The oldest unread scancode.
    pub open spec fn front(self) -> Option<u8> {
        match self.queue {
            Some(queue) => if queue.len() > 0 {
                Some(queue[0])
            } else {
                None
            },
            None => None,
        }
    }

    /// The bridge after the oldest unread scancode, if any, was taken.
    pub open spec fn pop(self) -> BridgeView {
        match self.queue {
            Some(queue) => if queue.len() > 0 {
                BridgeView { queue: Some(queue.drop_first()), ..self }
            } else {
                self
            },
            None => self,
        }
    }

    /// The bridge after a consumer registered: its handle is in the slot,
    /// whatever was there before.
    pub open spec fn register(self, waker: TaskWaker) -> BridgeView {
        BridgeView { waker: Some(waker), ..self }
    }

    /// The bridge after the registration was retracted.
    pub open spec fn take(self) -> BridgeView {
        BridgeView { waker: None, ..self }
    }

    /// The consumer's look after it has registered: a scancode that has
    /// arrived meanwhile is taken and the registration retracted; with
    /// nothing there the consumer suspends and stays registered.
    pub open spec fn recheck(self) -> (Poll<Option<u8>>, BridgeView) {
        match self.front() {
            Some(scancode) => (Poll::Ready(Some(scancode)), self.pop().take()),
            None => (Poll::Pending, self),
        }
    }

    /// One request for the next scancode, with no delivery in between: the
    /// oldest unread scancode is taken; with nothing there the consumer is
    /// registered and suspends.
    pub open spec fn poll_next(self, waker: TaskWaker) -> (Poll<Option<u8>>, BridgeView) {
        match self.front() {
            Some(scancode) => (Poll::Ready(Some(scancode)), self.pop()),
            None => (Poll::Pending, self.register(waker)),
        }
    }
}

/// The scancodes in the bridge's queue slot.
spec fn slot_items(slot: Option<ArrayQueue<u8>>) -> Option<Seq<u8>> {
    match slot {
        Some(queue) => Some(byte_queue_items(queue)),
        None => None,
    }
}

/// Whether the queue in the slot, if there is one, is the bridge's: of the
/// bridge's capacity, and within it.
spec fn slot_inv(slot: Option<ArrayQueue<u8>>) -> bool {
    match slot {
        Some(queue) => byte_queue_capacity(queue) == SCANCODE_CAPACITY && byte_queue_items(
            queue,
        ).len() <= SCANCODE_CAPACITY,
        None => true,
    }
}

fn slot_push(slot: &mut Option<ArrayQueue<u8>>, scancode: u8) -> (outcome: ScancodeOutcome)
    requires
        slot_inv(*old(slot)),
    ensures
        slot_inv(*final(slot)),
        outcome == (BridgeView { queue: slot_items(*old(slot)), waker: None }).outcome(),
        outcome == ScancodeOutcome::Delivered ==> slot_items(*final(slot)) == Some(
            slot_items(*old(slot)).unwrap().push(scancode),
        ),
        outcome != ScancodeOutcome::Delivered ==> slot_items(*final(slot)) == slot_items(
            *old(slot),
        ),
    no_unwind
{
    match slot {
        Some(queue) => match byte_queue_push(queue, scancode) {
            Ok(_) => ScancodeOutcome::Delivered,
            Err(_) => ScancodeOutcome::QueueFull,
        },
        None => ScancodeOutcome::Uninitialized,
    }
}

fn slot_pop(slot: &mut Option<ArrayQueue<u8>>) -> (scancode: Option<u8>)
    requires
        slot_inv(*old(slot)),
    ensures
        slot_inv(*final(slot)),
        scancode == (BridgeView { queue: slot_items(*old(slot)), waker: None }).front(),
        slot_items(*final(slot)) == (BridgeView {
            queue: slot_items(*old(slot)),
            waker: None,
        }).pop().queue,
    no_unwind
{
    match slot {
        Some(queue) => byte_queue_pop(queue),
        None => None,
    }
}

impl View for EventBridge {
    type V = BridgeView;

    closed spec fn view(&self) -> BridgeView {
        BridgeView { queue: slot_items(self.scancode_queue), waker: self.waker }
    }
}

impl EventBridge {
    #[verifier::type_invariant]
    spec fn inv(self) -> bool {
        slot_inv(self.scancode_queue)
    }

    /// A bridge before initialization, with no consumer waiting.
    pub fn new() -> (bridge: EventBridge)
        ensures
            bridge@ == (BridgeView { queue: None, waker: None }),
    {
        EventBridge { scancode_queue: None, waker: None }
    }

    /// Whether the scancode queue exists.
    pub fn is_initialized(&self) -> (initialized: bool)
        ensures
            initialized == self@.initialized(),
    {
        self.scancode_queue.is_some()
    }

    /// The number of unread scancodes; none before initialization.
    pub fn unread(&self) -> (count: usize)
        ensures
            self@.wf(),
            count == (match self@.queue {
                Some(queue) => queue.len(),
                None => 0,
            }),
    {
        proof {
            use_type_invariant(self);
        }
        match &self.scancode_queue {
            Some(queue) => byte_queue_len(queue),
            None => 0,
        }
    }

    /// The handle of the consumer that waits, if one is registered.
    pub fn waiting(&self) -> (waker: Option<TaskWaker>)
        ensures
            waker == self@.waker,
    {
        self.waker
    }

    /// Creates the scancode queue. Doing so twice is the caller's error.
    fn init_once(&mut self)
        requires
            !old(self)@.initialized(),
        ensures
            final(self)@ == old(self)@.init(),
    {
        self.scancode_queue = Some(byte_queue_new(SCANCODE_CAPACITY));
    }

    /// Queues a scancode if there is room for it.
    fn push(&mut self, scancode: u8) -> (outcome: ScancodeOutcome)
        ensures
            outcome == old(self)@.outcome(),
            outcome == ScancodeOutcome::Delivered ==> final(self)@ == (BridgeView {
                queue: Some(old(self)@.queue.unwrap().push(scancode)),
                ..old(self)@
            }),
            outcome != ScancodeOutcome::Delivered ==> final(self)@ == old(self)@,
    {
        proof {
            use_type_invariant(&*self);
        }
        slot_push(&mut self.scancode_queue, scancode)
    }

    /// Takes the oldest unread scancode. Before initialization there is no
    /// queue to look into: that is the caller's error.
    pub fn pop(&mut self) -> (scancode: Option<u8>)
        requires
            old(self)@.initialized(),
        ensures
            scancode == old(self)@.front(),
            final(self)@ == old(self)@.pop(),
    {
        proof {
            use_type_invariant(&*self);
        }
        slot_pop(&mut self.scancode_queue)
    }

    /// Registers the consumer that is to be signalled by the next
    /// delivery. An earlier registration is superseded.
    pub fn register(&mut self, waker: &TaskWaker)
        ensures
            final(self)@ == old(self)@.register(*waker),
    {
        proof {
            use_type_invariant(&*self);
        }
        self.waker = Some(*waker);
    }

    /// Retracts the registration and returns the handle that was
    /// registered.
    pub fn take(&mut self) -> (waker: Option<TaskWaker>)
        ensures
            waker == old(self)@.waker,
            final(self)@ == old(self)@.take(),
    {
        proof {
            use_type_invariant(&*self);
        }
        let waker: Option<TaskWaker> = self.waker;
        self.waker = None;
        waker
    }

    /// The consumer's look after it has registered.
    pub fn recheck(&mut self) -> (next: Poll<Option<u8>>)
        requires
            old(self)@.initialized(),
        ensures
            (next, final(self)@) == old(self)@.recheck(),
    {
        match self.pop() {
            Some(scancode) => {
                let _ = self.take();
                Poll::Ready(Some(scancode))
            },
            None => Poll::Pending,
        }
    }
}

/// Delivers a scancode from the keyboard interrupt. Before initialization,
/// and when the queue is full, the scancode is dropped and the outcome says
/// so; the interrupt handler never fails on it. A scancode that is queued
/// signals the consumer that waits: its registration is used up, and its
/// task goes to the scheduler's ready queue. The ready queue must have room
/// for that wakeup.
pub fn add_scancode(scancode: u8, keyboard: &mut EventBridge, executor: &mut Executor) -> (outcome:
    ScancodeOutcome)
    requires
        old(executor).wf(),
        old(keyboard)@.signal() is Some ==> old(executor)@.queue.len() < old(executor)@.capacity,
    ensures
        outcome == old(keyboard)@.outcome(),
        final(keyboard)@ == old(keyboard)@.push(scancode),
        final(executor).wf(),
        final(executor)@ == old(keyboard)@.wake(old(executor)@),
{
    let outcome: ScancodeOutcome = keyboard.push(scancode);
    match outcome {
        ScancodeOutcome::Delivered => {
            match keyboard.take() {
                Some(waker) => {
                    waker.wake(executor);
                },
                None => {},
            }
        },
        _ => {},
    }
    outcome
}

impl ScancodeOutcome {
    /// What the interrupt handler reports to the operator about a
    /// delivery: nothing when it went well, else why the scancode was
    /// dropped.
    pub fn report(&self) -> (message: Option<&'static str>)
        ensures
            *self == ScancodeOutcome::Delivered ==> message is None,
            *self == ScancodeOutcome::QueueFull ==> message is Some && message.unwrap()@
                == "[ERR] scancode queue full; dropping keyboard input\n"@,
            *self == ScancodeOutcome::Uninitialized ==> message is Some && message.unwrap()@
                == "[ERR] scancode queue uninitialized\n"@,
    {
        match self {
            ScancodeOutcome::Delivered => None,
            ScancodeOutcome::QueueFull => Some(
                "[ERR] scancode queue full; dropping keyboard input\n",
            ),
            ScancodeOutcome::Uninitialized => Some("[ERR] scancode queue uninitialized\n"),
        }
    }
}

/// The unending sequence of scancodes, as its one consumer reads it.
#[derive(Debug, Clone, Copy, PartialEq, Eq, PartialOrd, Ord)]
pub struct ScancodeStream {
    _private: (),
}

impl ScancodeStream {
    /// Initializes the bridge and returns the stream that reads from it.
    /// There is one stream: a second call, on a bridge that is initialized,
    /// is the caller's error.
    pub fn new(keyboard: &mut EventBridge) -> (stream: ScancodeStream)
        requires
            !old(keyboard)@.initialized(),
        ensures
            final(keyboard)@ == old(keyboard)@.init(),
    {
        keyboard.init_once();
        ScancodeStream { _private: () }
    }

    /// What is narrated once the stream exists, unless the boot is quiet.
    pub fn report(quiet_boot: bool) -> (message: Option<&'static str>)
        ensures
            quiet_boot ==> message is None,
            !quiet_boot ==> message is Some && message.unwrap()@ == "[OK] Scancode initialized\n"@,
    {
        if quiet_boot {
            None
        } else {
            Some("[OK] Scancode initialized\n")
        }
    }

    /// Asks for the next scancode on behalf of the task that `waker`
    /// resumes. An unread scancode is returned at once. Otherwise the
    /// consumer registers and looks again, so that a scancode delivered
    /// between the first look and the registration is not left behind; only
    /// if there is still none does it suspend, registered. The stream never
    /// ends: `Ready(None)` is not returned.
    pub fn poll_next(&mut self, keyboard: &mut EventBridge, waker: &TaskWaker) -> (next: Poll<
        Option<u8>,
    >)
        requires
            old(keyboard)@.initialized(),
        ensures
            (next, final(keyboard)@) == old(keyboard)@.poll_next(*waker),
    {
        match keyboard.pop() {
            Some(scancode) => {
                return Poll::Ready(Some(scancode));
            },
            None => {},
        }
        keyboard.register(waker);
        keyboard.recheck()
    }
}

/// Brings the keyboard driver up without reading from it: afterwards the
/// bridge exists, and interrupts that deliver scancodes may fire.
pub fn init(keyboard: &mut EventBridge)
    requires
        !old(keyboard)@.initialized(),
    ensures
        final(keyboard)@ == old(keyboard)@.init(),
{
    let _ = ScancodeStream::new(keyboard);
    let _ = KeyDecoder::new();
}

/// No wakeup is lost. A consumer has looked and found nothing, and then
/// registers. A scancode that is delivered before the registration is found
/// by the look that follows it, and the registration is retracted. One that
/// is delivered after the registration signals the consumer, and is found
/// as well. And a consumer that suspends is signalled by the next delivery.
pub proof fn lemma_no_lost_wakeup(bridge: BridgeView, scancode: u8, waker: TaskWaker)
    requires
        bridge.initialized(),
        bridge.front() is None,
    ensures
        bridge.push(scancode).register(waker).recheck() == (
            Poll::Ready(Some(scancode)),
            (BridgeView { queue: Some(Seq::empty()), waker: None }),
        ),
        bridge.register(waker).signal() == Some(waker),
        bridge.register(waker).push(scancode).recheck().0 == Poll::Ready(Some(scancode)),
        bridge.poll_next(waker) == (Poll::<Option<u8>>::Pending, bridge.register(waker)),
        bridge.poll_next(waker).1.signal() == Some(waker),
{
}

/// Of two registrations in a row only the second counts: nothing fails,
/// the slot holds the second handle, and the next delivery signals it.
pub proof fn lemma_latest_registration_wins(bridge: BridgeView, first: TaskWaker, second: TaskWaker)
    ensures
        bridge.register(first).register(second) == bridge.register(second),
        bridge.register(first).register(second).waker == Some(second),
        bridge.outcome() == ScancodeOutcome::Delivered ==> bridge.register(first).register(
            second,
        ).signal() == Some(second),
{
}

/// Of two consumers that ask one after the other with nothing unread,
/// both suspend, and only the second stays registered. The next delivery
/// is queued, uses that registration up, and puts the second consumer's
/// task on the ready queue, once; the first consumer is not woken.
pub proof fn lemma_delivery_wakes_latest_consumer(
    bridge: BridgeView,
    executor: ExecutorView,
    first: TaskWaker,
    second: TaskWaker,
    scancode: u8,
)
    requires
        bridge.initialized(),
        bridge.front() is None,
        executor.queue.len() < executor.capacity,
    ensures
        bridge.poll_next(first).0 is Pending,
        bridge.poll_next(first).1.poll_next(second).0 is Pending,
        bridge.poll_next(first).1.poll_next(second).1 == bridge.register(second),
        bridge.register(second).outcome() == ScancodeOutcome::Delivered,
        bridge.register(second).push(scancode) == (BridgeView {
            queue: Some(seq![scancode]),
            waker: None,
        }),
        bridge.register(second).wake(executor) == (ExecutorView {
            queue: executor.queue.push(second@),
            ..executor
        }),
{
    assert(bridge.queue.unwrap().push(scancode) =~= seq![scancode]);
}

} // verus!
