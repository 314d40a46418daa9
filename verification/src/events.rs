//! A bounded FIFO queue of decoded keys: the buffering discipline that keeps
//! an interrupt handler's critical section minimal. Instead of forwarding an
//! event to an output sink that may be locked by mainline code — a deadlock
//! hazard — the handler enqueues the event here under a brief lock, and a
//! mainline task drains the queue outside interrupt context.

use vstd::prelude::*;

use crate::keyboard::Key;

verus! {

/// A bounded FIFO queue of decoded keys. A full queue refuses new events
/// rather than grow: the handler's work stays bounded in time and memory.
pub struct EventQueue {
    buf: Vec<Key>,
    capacity: usize,
}

impl View for EventQueue {
    type V = Seq<Key>;

    /// A queue is modeled by the keys it holds, front first.
    closed spec fn view(&self) -> Seq<Key> {
        self.buf@
    }
}

impl EventQueue {
    /// The bound the queue was created with.
    pub closed spec fn cap(self) -> usize {
        self.capacity
    }

    /// An empty queue with the given bound.
    pub fn new(capacity: usize) -> (q: EventQueue)
        ensures
            q@ == Seq::<Key>::empty(),
            q.cap() == capacity,
    {
        EventQueue { buf: Vec::new(), capacity }
    }

    /// Number of keys queued.
    pub fn len(&self) -> (n: usize)
        ensures
            n == self@.len(),
    {
        self.buf.len()
    }

    /// Appends a key at the back, unless the queue is full: a full queue
    /// refuses the key and reports it, so the caller can count the drop.
    pub fn push(&mut self, key: Key) -> (queued: bool)
        ensures
            final(self).cap() == old(self).cap(),
            old(self)@.len() < old(self).cap() ==> queued && final(self)@ == old(self)@.push(key),
            old(self)@.len() >= old(self).cap() ==> !queued && final(self)@ == old(self)@,
    {
        if self.buf.len() < self.capacity {
            self.buf.push(key);
            true
        } else {
            false
        }
    }

    /// Removes and returns the key at the front — the oldest queued — or
    /// `None` on an empty queue.
    pub fn pop(&mut self) -> (r: Option<Key>)
        ensures
            final(self).cap() == old(self).cap(),
            old(self)@.len() == 0 ==> r is None && final(self)@ == old(self)@,
            old(self)@.len() > 0 ==> r == Some(old(self)@[0]) && final(self)@ == old(self)@.subrange(
                1,
                old(self)@.len() as int,
            ),
    {
        if self.buf.len() == 0 {
            None
        } else {
            let k = self.buf.remove(0);
            proof {
                assert(self.buf@ =~= old(self)@.subrange(1, old(self)@.len() as int));
            }
            Some(k)
        }
    }
}

} // verus!
