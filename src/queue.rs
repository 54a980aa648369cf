use vstd::prelude::*;
use std::collections::VecDeque;

verus! {

/// An admitted request that waits for an answer.
#[derive(Debug, Clone, PartialEq, Eq)]
pub struct QueueItem {
    pub channel: u64,
    pub user: u64,
    pub prompt: String,
}

/// First-in first-out holding of admitted, not yet answered requests.
pub struct RequestQueue {
    items: VecDeque<QueueItem>,
}

impl RequestQueue {
    pub closed spec fn view(&self) -> Seq<QueueItem> {
        self.items@
    }

    /// An empty queue.
    pub fn new() -> (r: RequestQueue)
        ensures
            r@ == Seq::<QueueItem>::empty(),
    {
        RequestQueue { items: VecDeque::new() }
    }

    /// Number of waiting requests.
    pub fn len(&self) -> (r: usize)
        ensures
            r == self@.len(),
    {
        self.items.len()
    }

    /// Appends `item` at the tail.
    pub fn enqueue(&mut self, item: QueueItem)
        ensures
            final(self)@ == old(self)@.push(item),
    {
        self.items.push_back(item);
    }

    /// Removes and returns the head, or `None` when the queue is empty.
    pub fn dequeue(&mut self) -> (r: Option<QueueItem>)
        ensures
            old(self)@.len() == 0 ==> r.is_none() && final(self)@ == old(self)@,
            old(self)@.len() > 0 ==> r == Some(old(self)@[0]) && final(self)@ == old(self)@.drop_first(),
    {
        self.items.pop_front()
    }
}

/// Items enqueued in order come out in the same order: after enqueueing
/// `a`, `b`, `c` onto an empty queue, three dequeues give `a`, `b`, `c`.
pub proof fn lemma_fifo_order(a: QueueItem, b: QueueItem, c: QueueItem)
    ensures
        ({
            let q = Seq::<QueueItem>::empty().push(a).push(b).push(c);
            &&& q[0] == a
            &&& q.drop_first()[0] == b
            &&& q.drop_first().drop_first()[0] == c
            &&& q.drop_first().drop_first().drop_first().len() == 0
        }),
{
}

/// An item enqueued behind waiting ones does not overtake them: the head
/// stays the same, and after it leaves the item is still last behind the rest.
pub proof fn lemma_enqueue_behind(s: Seq<QueueItem>, x: QueueItem)
    requires
        s.len() > 0,
    ensures
        s.push(x)[0] == s[0],
        s.push(x).drop_first() == s.drop_first().push(x),
{
    assert(s.push(x).drop_first() =~= s.drop_first().push(x));
}

} // verus!
