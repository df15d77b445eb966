//! The bounded FIFO queues that the engine uses, from `heapless`.
use heapless::spsc::Queue;
use vstd::prelude::*;
use crate::types::KeyEvent;

verus! {

#[verifier::external_type_specification]
#[verifier::external_body]
#[verifier::reject_recursive_types(T)]
pub struct ExQueue<T, const N: usize>(Queue<T, N>);

/// The events held by an event queue, front first.
pub uninterp spec fn pending_events(q: Queue<KeyEvent, 64>) -> Seq<KeyEvent>;

/// The usage codes held by a report queue, front first.
pub uninterp spec fn queued_usages(q: Queue<u8, 32>) -> Seq<u8>;

/// Room of the event queue: heapless keeps one of its `N` slots free.
pub const EVENT_CAPACITY: usize = 63;

/// Room of the report queue: heapless keeps one of its `N` slots free.
pub const REPORT_CAPACITY: usize = 31;

/// Relies on heapless::spsc::Queue::new: a new queue is empty.
#[verifier::external_body]
pub(crate) fn new_event_queue() -> (q: Queue<KeyEvent, 64>)
    ensures
        pending_events(q) == Seq::<KeyEvent>::empty(),
{
    Queue::new()
}

/// Relies on heapless::spsc::Queue::enqueue: the item goes to the back while
/// fewer than `N - 1` items are held, and is handed back otherwise.
#[verifier::external_body]
pub(crate) fn enqueue_event(q: &mut Queue<KeyEvent, 64>, e: KeyEvent) -> (r: Result<(), KeyEvent>)
    ensures
        pending_events(*old(q)).len() < EVENT_CAPACITY ==> r is Ok && pending_events(*final(q))
            == pending_events(*old(q)).push(e),
        pending_events(*old(q)).len() >= EVENT_CAPACITY ==> r is Err
            && pending_events(*final(q)) == pending_events(*old(q)),
{
    q.enqueue(e)
}

/// Relies on heapless::spsc::Queue::dequeue: the front item leaves, `None` when empty.
#[verifier::external_body]
pub(crate) fn dequeue_event(q: &mut Queue<KeyEvent, 64>) -> (r: Option<KeyEvent>)
    ensures
        pending_events(*old(q)).len() == 0 ==> r is None && pending_events(*final(q))
            == pending_events(*old(q)),
        pending_events(*old(q)).len() > 0 ==> r == Some(pending_events(*old(q))[0])
            && pending_events(*final(q)) == pending_events(*old(q)).drop_first(),
{
    q.dequeue()
}

/// Relies on heapless::spsc::Queue::new: a new queue is empty.
#[verifier::external_body]
pub(crate) fn new_report_queue() -> (q: Queue<u8, 32>)
    ensures
        queued_usages(q) == Seq::<u8>::empty(),
{
    Queue::new()
}

/// Relies on heapless::spsc::Queue::enqueue: the item goes to the back while
/// fewer than `N - 1` items are held, and is handed back otherwise.
#[verifier::external_body]
pub(crate) fn enqueue_usage(q: &mut Queue<u8, 32>, u: u8) -> (r: Result<(), u8>)
    ensures
        queued_usages(*old(q)).len() < REPORT_CAPACITY ==> r is Ok && queued_usages(*final(q))
            == queued_usages(*old(q)).push(u),
        queued_usages(*old(q)).len() >= REPORT_CAPACITY ==> r is Err
            && queued_usages(*final(q)) == queued_usages(*old(q)),
{
    q.enqueue(u)
}

/// Relies on heapless::spsc::Queue::dequeue: the front item leaves, `None` when empty.
#[verifier::external_body]
pub(crate) fn dequeue_usage(q: &mut Queue<u8, 32>) -> (r: Option<u8>)
    ensures
        queued_usages(*old(q)).len() == 0 ==> r is None && queued_usages(*final(q))
            == queued_usages(*old(q)),
        queued_usages(*old(q)).len() > 0 ==> r == Some(queued_usages(*old(q))[0])
            && queued_usages(*final(q)) == queued_usages(*old(q)).drop_first(),
{
    q.dequeue()
}

} // verus!
