use std::collections::VecDeque;

use vstd::prelude::*;

verus! {

/// The wake-up owed to the host after an item became visible to its consumer: the host
/// calls its signaller with this semaphore index once the queue's lock is released.
#[derive(Clone, Copy, Debug, PartialEq, Eq, Structural)]
pub struct Wake {
    pub semaphore_index: usize,
}

/// A first-in first-out buffer filled by engine callbacks and drained by the host, bound
/// to the semaphore index that the host chose for it. It never blocks: `pop` on an empty
/// queue returns `None` at once.
pub struct SignalQueue<E> {
    items: VecDeque<E>,
    semaphore_index: usize,
}

/// The queue that pushing `items`, one after the other, onto `queue` leaves.
pub open spec fn pushed_all<E>(queue: Seq<E>, items: Seq<E>) -> Seq<E>
    decreases items.len(),
{
    if items.len() == 0 {
        queue
    } else {
        pushed_all(queue.push(items[0]), items.drop_first())
    }
}

/// What a consumer receives, in order, by popping `queue` until it is empty.
pub open spec fn popped_all<E>(queue: Seq<E>) -> Seq<E>
    decreases queue.len(),
{
    if queue.len() == 0 {
        Seq::empty()
    } else {
        seq![queue[0]] + popped_all(queue.drop_first())
    }
}

/// Pushing items one by one appends them in the order of the pushes.
pub proof fn lemma_pushed_all_appends<E>(queue: Seq<E>, items: Seq<E>)
    ensures
        pushed_all(queue, items) == queue + items,
    decreases items.len(),
{
    if items.len() > 0 {
        lemma_pushed_all_appends(queue.push(items[0]), items.drop_first());
        assert(queue.push(items[0]) + items.drop_first() =~= queue + items);
    }
}

/// Popping until empty yields the queue's items in order, each once.
pub proof fn lemma_popped_all_is_queue<E>(queue: Seq<E>)
    ensures
        popped_all(queue) == queue,
    decreases queue.len(),
{
    if queue.len() > 0 {
        lemma_popped_all_is_queue(queue.drop_first());
        assert(seq![queue[0]] + queue.drop_first() =~= queue);
    }
}

/// First in, first out: when producers push `items` (in the order in which the lock
/// admitted them) onto a queue holding `start`, and one consumer then pops until the
/// queue is empty, it receives `start` and then `items`, in order, each exactly once.
/// So the events of any one producer come out in the order that producer pushed them,
/// and none is duplicated or dropped.
pub proof fn lemma_fifo_drain<E>(start: Seq<E>, items: Seq<E>)
    ensures
        popped_all(pushed_all(start, items)) == start + items,
{
    lemma_pushed_all_appends(start, items);
    lemma_popped_all_is_queue(start + items);
}

impl<E> SignalQueue<E> {
    /// The items waiting, oldest first.
    pub closed spec fn view(&self) -> Seq<E> {
        self.items@
    }

    pub closed spec fn semaphore(&self) -> usize {
        self.semaphore_index
    }

    /// An empty queue that wakes the host through `semaphore_index`.
    pub fn new(semaphore_index: usize) -> (r: Self)
        ensures
            r@ == Seq::<E>::empty(),
            r.semaphore() == semaphore_index,
    {
        SignalQueue { items: VecDeque::new(), semaphore_index }
    }

    pub fn semaphore_index(&self) -> (r: usize)
        ensures
            r == self.semaphore(),
    {
        self.semaphore_index
    }

    pub fn len(&self) -> (r: usize)
        ensures
            r == self@.len(),
    {
        self.items.len()
    }

    /// Appends `item` and returns the wake-up that the host is owed for it. The item is
    /// in the queue before the wake-up exists, so the signal never precedes the insert.
    pub fn enqueue(&mut self, item: E) -> (w: Wake)
        ensures
            final(self)@ == old(self)@.push(item),
            final(self).semaphore() == old(self).semaphore(),
            w == (Wake { semaphore_index: old(self).semaphore() }),
    {
        self.items.push_back(item);
        Wake { semaphore_index: self.semaphore_index }
    }

    /// Removes and returns the oldest item, or `None` when the queue is empty.
    pub fn pop(&mut self) -> (r: Option<E>)
        ensures
            final(self).semaphore() == old(self).semaphore(),
            r matches Some(x) ==> {
                &&& old(self)@.len() > 0
                &&& x == old(self)@[0]
                &&& final(self)@ == old(self)@.drop_first()
            },
            r is None ==> {
                &&& old(self)@.len() == 0
                &&& final(self)@ == old(self)@
            },
    {
        let r = self.items.pop_front();
        proof {
            if r is Some {
                assert(self@ =~= old(self)@.drop_first());
            }
        }
        r
    }

    /// Pops until the queue is empty and returns what came out, oldest first.
    pub fn drain(&mut self) -> (r: Vec<E>)
        ensures
            r@ == popped_all(old(self)@),
            r@ == old(self)@,
            final(self)@ == Seq::<E>::empty(),
            final(self).semaphore() == old(self).semaphore(),
    {
        let mut out: Vec<E> = Vec::new();
        loop
            invariant
                out@ + self@ == old(self)@,
                self.semaphore() == old(self).semaphore(),
            decreases self@.len(),
        {
            let ghost before = self@;
            match self.pop() {
                Some(x) => {
                    out.push(x);
                    assert(out@ + self@ =~= old(self)@) by {
                        assert(seq![x] + self@ =~= before);
                        assert(out@ + self@ =~= (out@.drop_last() + seq![x]) + self@);
                    }
                },
                None => {
                    assert(out@ =~= old(self)@);
                    proof {
                        lemma_popped_all_is_queue(old(self)@);
                    }
                    return out;
                },
            }
        }
    }
}

} // verus!
