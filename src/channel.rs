use vstd::prelude::*;

use std::collections::VecDeque;

verus! {

/// The event channel: an unbounded first-in, first-out queue with any number of
/// producers and one consumer. Items come out in the order in which they were
/// sent, whoever sent them. Once the consumer is gone, sending fails and hands
/// the item back.
pub struct EventQueue<T> {
    items: VecDeque<T>,
    closed: bool,
}

impl<T> EventQueue<T> {
    /// The items waiting, oldest first.
    pub closed spec fn pending(&self) -> Seq<T> {
        self.items@
    }

    /// Whether the consumer is gone.
    pub closed spec fn is_closed(&self) -> bool {
        self.closed
    }

    /// An empty, open queue.
    pub fn new() -> (r: EventQueue<T>)
        ensures
            r.pending() == Seq::<T>::empty(),
            !r.is_closed(),
    {
        EventQueue { items: VecDeque::new(), closed: false }
    }

    /// Enqueues an item behind all items sent before it. Never blocks; fails,
    /// handing the item back, exactly when the consumer is gone.
    pub fn send(&mut self, item: T) -> (r: Result<(), T>)
        ensures
            final(self).is_closed() == old(self).is_closed(),
            old(self).is_closed() ==> r == Err::<(), T>(item) && final(self).pending()
                == old(self).pending(),
            !old(self).is_closed() ==> r is Ok
                && final(self).pending() == old(self).pending().push(item),
    {
        if self.closed {
            Err(item)
        } else {
            self.items.push_back(item);
            Ok(())
        }
    }

    /// Takes the oldest item, if any.
    pub fn recv(&mut self) -> (r: Option<T>)
        ensures
            final(self).is_closed() == old(self).is_closed(),
            old(self).pending().len() == 0 ==> r is None && final(self).pending()
                == old(self).pending(),
            old(self).pending().len() > 0 ==> r == Some(old(self).pending()[0])
                && final(self).pending() == old(self).pending().drop_first(),
    {
        self.items.pop_front()
    }

    /// The number of items waiting.
    pub fn len(&self) -> (r: usize)
        ensures
            r == self.pending().len(),
    {
        self.items.len()
    }

    /// Marks the consumer as gone: every later send fails.
    pub fn close(&mut self)
        ensures
            final(self).is_closed(),
            final(self).pending() == old(self).pending(),
    {
        self.closed = true;
    }
}

} // verus!
