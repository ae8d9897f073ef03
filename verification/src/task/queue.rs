//! The bounded lock-free queue of `crossbeam_queue`, as this crate uses it.
//!
//! Nothing in this file is proved: it states what the queue's operations do
//! when the caller holds the queue exclusively, which is how every function
//! of this crate holds it.

use crossbeam_queue::ArrayQueue;
use vstd::prelude::*;

verus! {

/// Bytes that one slot of an `ArrayQueue` takes for the two item types used
/// here: a 64-bit stamp, and the item padded to the stamp's alignment.
pub const SLOT_BYTES: usize = 16;

/// `crossbeam_queue::ArrayQueue<T>`, carried as an opaque value.
#[verifier::external_type_specification]
#[verifier::external_body]
#[verifier::reject_recursive_types(T)]
pub struct ExArrayQueue<T>(ArrayQueue<T>);

/// The task identifiers that a queue holds, oldest first.
pub uninterp spec fn id_queue_items(queue: ArrayQueue<u64>) -> Seq<u64>;

/// The capacity that a queue of task identifiers was made with.
pub uninterp spec fn id_queue_capacity(queue: ArrayQueue<u64>) -> nat;

/// The bytes that a queue holds, oldest first.
pub uninterp spec fn byte_queue_items(queue: ArrayQueue<u8>) -> Seq<u8>;

/// The capacity that a queue of bytes was made with.
pub uninterp spec fn byte_queue_capacity(queue: ArrayQueue<u8>) -> nat;

/// Whether `ArrayQueue::new` accepts this capacity: it panics on zero, and
/// on a buffer whose size in bytes does not fit in `isize`.
pub open spec fn valid_capacity(capacity: usize) -> bool {
    0 < capacity && capacity * SLOT_BYTES <= isize::MAX
}

/// `ArrayQueue::<u64>::new`: an empty queue of the capacity asked for.
#[verifier::external_body]
pub(crate) fn id_queue_new(capacity: usize) -> (queue: ArrayQueue<u64>)
    requires
        valid_capacity(capacity),
    ensures
        id_queue_items(queue) == Seq::<u64>::empty(),
        id_queue_capacity(queue) == capacity,
{
    ArrayQueue::new(capacity)
}

/// `ArrayQueue::push`: below capacity the value goes to the back and the
/// call succeeds; at capacity the queue stays as it is and the value comes
/// back as the error.
#[verifier::external_body]
pub(crate) fn id_queue_push(queue: &mut ArrayQueue<u64>, value: u64) -> (result: Result<(), u64>)
    ensures
        id_queue_capacity(*final(queue)) == id_queue_capacity(*old(queue)),
        id_queue_items(*old(queue)).len() < id_queue_capacity(*old(queue)) ==> result is Ok
            && id_queue_items(*final(queue)) == id_queue_items(*old(queue)).push(value),
        id_queue_items(*old(queue)).len() >= id_queue_capacity(*old(queue)) ==> result is Err
            && result.unwrap_err() == value && id_queue_items(*final(queue)) == id_queue_items(
            *old(queue),
        ),
{
    queue.push(value)
}

/// `ArrayQueue::pop`: the oldest value leaves the queue and is returned;
/// an empty queue stays empty and gives `None`.
#[verifier::external_body]
pub(crate) fn id_queue_pop(queue: &mut ArrayQueue<u64>) -> (result: Option<u64>)
    ensures
        id_queue_capacity(*final(queue)) == id_queue_capacity(*old(queue)),
        id_queue_items(*old(queue)).len() == 0 ==> result is None
            && id_queue_items(*final(queue)) == id_queue_items(*old(queue)),
        id_queue_items(*old(queue)).len() > 0 ==> result == Some(id_queue_items(*old(queue))[0])
            && id_queue_items(*final(queue)) == id_queue_items(*old(queue)).drop_first(),
{
    queue.pop()
}

/// `ArrayQueue::is_empty`: whether the queue holds nothing.
#[verifier::external_body]
pub(crate) fn id_queue_is_empty(queue: &ArrayQueue<u64>) -> (empty: bool)
    ensures
        empty == (id_queue_items(*queue).len() == 0),
{
    queue.is_empty()
}

/// `ArrayQueue::len`: the number of values in the queue.
#[verifier::external_body]
pub(crate) fn id_queue_len(queue: &ArrayQueue<u64>) -> (len: usize)
    ensures
        len == id_queue_items(*queue).len(),
{
    queue.len()
}

/// `ArrayQueue::capacity`: the capacity that the queue was made with.
#[verifier::external_body]
pub(crate) fn id_queue_limit(queue: &ArrayQueue<u64>) -> (capacity: usize)
    ensures
        capacity == id_queue_capacity(*queue),
{
    queue.capacity()
}

/// `ArrayQueue::<u8>::new`: an empty queue of the capacity asked for.
#[verifier::external_body]
pub(crate) fn byte_queue_new(capacity: usize) -> (queue: ArrayQueue<u8>)
    requires
        valid_capacity(capacity),
    ensures
        byte_queue_items(queue) == Seq::<u8>::empty(),
        byte_queue_capacity(queue) == capacity,
{
    ArrayQueue::new(capacity)
}

/// `ArrayQueue::push` on bytes: below capacity the byte goes to the back
/// and the call succeeds; at capacity the queue stays as it is and the byte
/// comes back as the error.
#[verifier::external_body]
pub(crate) fn byte_queue_push(queue: &mut ArrayQueue<u8>, value: u8) -> (result: Result<(), u8>)
    ensures
        byte_queue_capacity(*final(queue)) == byte_queue_capacity(*old(queue)),
        byte_queue_items(*old(queue)).len() < byte_queue_capacity(*old(queue)) ==> result is Ok
            && byte_queue_items(*final(queue)) == byte_queue_items(*old(queue)).push(value),
        byte_queue_items(*old(queue)).len() >= byte_queue_capacity(*old(queue)) ==> result is Err
            && result.unwrap_err() == value && byte_queue_items(*final(queue))
            == byte_queue_items(*old(queue)),
    no_unwind
{
    queue.push(value)
}

/// `ArrayQueue::pop` on bytes: the oldest byte leaves the queue and is
/// returned; an empty queue stays empty and gives `None`.
#[verifier::external_body]
pub(crate) fn byte_queue_pop(queue: &mut ArrayQueue<u8>) -> (result: Option<u8>)
    ensures
        byte_queue_capacity(*final(queue)) == byte_queue_capacity(*old(queue)),
        byte_queue_items(*old(queue)).len() == 0 ==> result is None
            && byte_queue_items(*final(queue)) == byte_queue_items(*old(queue)),
        byte_queue_items(*old(queue)).len() > 0 ==> result == Some(byte_queue_items(*old(queue))[0])
            && byte_queue_items(*final(queue)) == byte_queue_items(*old(queue)).drop_first(),
    no_unwind
{
    queue.pop()
}

/// `ArrayQueue::len` on bytes: the number of bytes in the queue.
#[verifier::external_body]
pub(crate) fn byte_queue_len(queue: &ArrayQueue<u8>) -> (len: usize)
    ensures
        len == byte_queue_items(*queue).len(),
{
    queue.len()
}

} // verus!
