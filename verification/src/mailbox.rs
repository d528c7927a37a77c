//! The mailbox: a closable FIFO queue of instructions, either bounded (a
//! fixed capacity that refuses further sends when full) or unbounded.
//!
//! This type is the queue discipline itself. Waking blocked senders and
//! receivers is the shell's business: a caller that sees `Full` or `Empty`
//! retries once woken, and the contracts here say exactly what each retry
//! observes.

use std::collections::VecDeque;
use vstd::prelude::*;

verus! {

/// Why a non-blocking send was refused.
#[derive(Debug, Copy, Clone, Eq, PartialEq, Structural)]
pub enum TrySendError {
    /// The mailbox is bounded and holds `capacity` items.
    Full,
    /// The mailbox has been closed; no further item will be accepted.
    Closed,
}

/// Why a non-blocking receive returned no item.
#[derive(Debug, Copy, Clone, Eq, PartialEq, Structural)]
pub enum TryRecvError {
    /// The mailbox holds no item, but more may yet be sent.
    Empty,
    /// The mailbox is closed and fully drained.
    Closed,
}

/// A first-in/first-out mailbox of instructions of type `I`.
///
/// Sends append at the back; receives take from the front; closing is
/// idempotent, refuses further sends, and leaves the queued items drainable.
pub struct Mailbox<I> {
    queue: VecDeque<I>,
    capacity: Option<usize>,
    closed: bool,
}

impl<I> Mailbox<I> {
    /// The items queued and not yet received, oldest first.
    pub closed spec fn pending(&self) -> Seq<I> {
        self.queue@
    }

    /// The capacity the mailbox was made with; `None` means unbounded.
    pub closed spec fn capacity_spec(&self) -> Option<usize> {
        self.capacity
    }

    /// Whether the mailbox has been closed.
    pub closed spec fn is_closed_spec(&self) -> bool {
        self.closed
    }

    /// A bounded mailbox never holds more items than its capacity.
    pub open spec fn wf(&self) -> bool {
        match self.capacity_spec() {
            Option::Some(cap) => self.pending().len() <= cap,
            Option::None => true,
        }
    }

    /// Create a bounded mailbox of the given capacity.
    pub fn bounded(capacity: usize) -> (r: Self)
        ensures
            r.wf(),
            r.pending() =~= Seq::<I>::empty(),
            r.capacity_spec() == Option::Some(capacity),
            !r.is_closed_spec(),
    {
        Mailbox { queue: VecDeque::new(), capacity: Some(capacity), closed: false }
    }

    /// Create an unbounded mailbox.
    pub fn unbounded() -> (r: Self)
        ensures
            r.wf(),
            r.pending() =~= Seq::<I>::empty(),
            r.capacity_spec() == Option::None::<usize>,
            !r.is_closed_spec(),
    {
        Mailbox { queue: VecDeque::new(), capacity: None, closed: false }
    }

    /// Whether a send would currently be refused with `Full`.
    pub open spec fn is_full_spec(&self) -> bool {
        match self.capacity_spec() {
            Option::Some(cap) => self.pending().len() >= cap,
            Option::None => false,
        }
    }

    /// Append an item, without blocking. Fails on a closed mailbox and on a
    /// full bounded mailbox, leaving the queue untouched; otherwise the item
    /// goes to the back of the queue.
    pub fn try_send(&mut self, item: I) -> (r: Result<(), TrySendError>)
        requires
            old(self).wf(),
        ensures
            final(self).wf(),
            final(self).capacity_spec() == old(self).capacity_spec(),
            final(self).is_closed_spec() == old(self).is_closed_spec(),
            old(self).is_closed_spec() ==> r == Result::<(), TrySendError>::Err(
                TrySendError::Closed,
            ) && final(self).pending() == old(self).pending(),
            !old(self).is_closed_spec() && old(self).is_full_spec() ==> r == Result::<
                (),
                TrySendError,
            >::Err(TrySendError::Full) && final(self).pending() == old(self).pending(),
            !old(self).is_closed_spec() && !old(self).is_full_spec() ==> r is Ok
                && final(self).pending() == old(self).pending().push(item),
    {
        if self.closed {
            return Err(TrySendError::Closed);
        }
        let full = match self.capacity {
            Some(cap) => self.queue.len() >= cap,
            None => false,
        };
        if full {
            return Err(TrySendError::Full);
        }
        self.queue.push_back(item);
        Ok(())
    }

    /// Take the oldest item, without blocking. Queued items remain drainable
    /// after a close; once a closed mailbox is drained the receive reports
    /// `Closed`, and an open empty mailbox reports `Empty`.
    pub fn try_recv(&mut self) -> (r: Result<I, TryRecvError>)
        requires
            old(self).wf(),
        ensures
            final(self).wf(),
            final(self).capacity_spec() == old(self).capacity_spec(),
            final(self).is_closed_spec() == old(self).is_closed_spec(),
            old(self).pending().len() > 0 ==> r == Result::<I, TryRecvError>::Ok(
                old(self).pending()[0],
            ) && final(self).pending() == old(self).pending().drop_first(),
            old(self).pending().len() == 0 ==> final(self).pending() == old(self).pending() && r
                == Result::<I, TryRecvError>::Err(
                if old(self).is_closed_spec() {
                    TryRecvError::Closed
                } else {
                    TryRecvError::Empty
                },
            ),
    {
        match self.queue.pop_front() {
            Some(item) => {
                proof {
                    assert(self.queue@ =~= old(self).pending().drop_first());
                }
                Ok(item)
            },
            None => {
                if self.closed {
                    Err(TryRecvError::Closed)
                } else {
                    Err(TryRecvError::Empty)
                }
            },
        }
    }

    /// Close the mailbox: idempotent; further sends fail; queued items stay
    /// drainable.
    pub fn close(&mut self)
        ensures
            final(self).is_closed_spec(),
            final(self).pending() == old(self).pending(),
            final(self).capacity_spec() == old(self).capacity_spec(),
    {
        self.closed = true;
    }

    /// The number of queued items.
    pub fn len(&self) -> (r: usize)
        ensures
            r == self.pending().len(),
    {
        self.queue.len()
    }

    /// Whether the mailbox holds no items.
    pub fn is_empty(&self) -> (r: bool)
        ensures
            r == (self.pending().len() == 0),
    {
        self.queue.len() == 0
    }

    /// Whether the mailbox has been closed.
    pub fn is_closed(&self) -> (r: bool)
        ensures
            r == self.is_closed_spec(),
    {
        self.closed
    }

    /// The capacity the mailbox was made with; `None` means unbounded.
    pub fn capacity(&self) -> (r: Option<usize>)
        ensures
            r == self.capacity_spec(),
    {
        self.capacity
    }
}

impl<I> Mailbox<I> {
    /// Take every queued item, oldest first.
    ///
    /// Law: a single receiver draining the mailbox observes every enqueued
    /// item exactly once, in the order the items were sent.
    pub fn drain(&mut self) -> (r: Vec<I>)
        requires
            old(self).wf(),
        ensures
            final(self).wf(),
            r@ == old(self).pending(),
            final(self).pending().len() == 0,
            final(self).capacity_spec() == old(self).capacity_spec(),
            final(self).is_closed_spec() == old(self).is_closed_spec(),
    {
        let mut taken: Vec<I> = Vec::new();
        while self.len() > 0
            invariant
                self.wf(),
                taken@ + self.pending() == old(self).pending(),
                self.capacity_spec() == old(self).capacity_spec(),
                self.is_closed_spec() == old(self).is_closed_spec(),
            decreases self.pending().len(),
        {
            // The queue is non-empty, so the receive cannot fail.
            if let Ok(item) = self.try_recv() {
                taken.push(item);
                proof {
                    assert(taken@ + self.pending() =~= old(self).pending());
                }
            }
        }
        proof {
            assert(taken@ =~= taken@ + self.pending());
        }
        taken
    }
}

/// The queue contents that result from sending the items of `sent`, in
/// order, into a mailbox that held `start`.
pub open spec fn enqueue_all<I>(start: Seq<I>, sent: Seq<I>) -> Seq<I>
    decreases sent.len(),
{
    if sent.len() == 0 {
        start
    } else {
        enqueue_all(start, sent.drop_last()).push(sent.last())
    }
}

/// Law: mailbox FIFO. Sending `sent` into an empty mailbox queues exactly
/// `sent`, and since a receive always takes the front of the queue, a single
/// receiver draining the mailbox observes the items in the order they were
/// enqueued.
pub proof fn lemma_mailbox_fifo<I>(sent: Seq<I>)
    ensures
        enqueue_all(Seq::<I>::empty(), sent) =~= sent,
    decreases sent.len(),
{
    if sent.len() > 0 {
        lemma_mailbox_fifo::<I>(sent.drop_last());
    }
}

/// The total number of items queued across a sequence of mailboxes.
pub open spec fn total_pending<I>(chain: Seq<Mailbox<I>>) -> int
    decreases chain.len(),
{
    if chain.len() == 0 {
        0
    } else {
        total_pending(chain.drop_last()) + chain.last().pending().len()
    }
}

/// Law: bounded back-pressure. However many messages are pushed through a
/// chain of `M` bounded mailboxes of capacity `C`, at any instant at most
/// `M * C` of them are queued: senders block instead of growing the queues.
pub proof fn lemma_bounded_backpressure<I>(chain: Seq<Mailbox<I>>, cap: usize)
    requires
        forall|i: int|
            0 <= i < chain.len() ==> (#[trigger] chain[i]).wf() && chain[i].capacity_spec()
                == Option::Some(cap),
    ensures
        total_pending(chain) <= chain.len() * cap,
    decreases chain.len(),
{
    if chain.len() > 0 {
        lemma_bounded_backpressure(chain.drop_last(), cap);
        assert(chain.last().pending().len() <= cap);
        assert(chain.len() * cap == (chain.len() - 1) * cap + cap) by (nonlinear_arith);
    }
}

} // verus!
