//! The hand-off channel model: a bounded, ordered queue of encoded chunks.
//!
//! The capture side enqueues complete containers; the consuming side
//! dequeues them in the same order. The queue is bounded — a full queue
//! refuses the chunk, which is the producer's signal to wait — and carries
//! a close flag, so that the consumer can tell "empty for now" from
//! "closed for good".

use vstd::prelude::*;

verus! {

/// Enqueueing appends at the back.
pub open spec fn enqueue_model(q: Seq<Seq<u8>>, chunk: Seq<u8>) -> Seq<Seq<u8>> {
    q.push(chunk)
}

/// Dequeueing takes from the front: the oldest chunk, and the rest.
pub open spec fn dequeue_model(q: Seq<Seq<u8>>) -> (Seq<u8>, Seq<Seq<u8>>)
    recommends
        q.len() > 0,
{
    (q[0], q.drop_first())
}

/// A bounded FIFO queue of encoded audio chunks with a close flag.
pub struct TransferChannel {
    items: Vec<Vec<u8>>,
    capacity: usize,
    closed: bool,
}

impl TransferChannel {
    /// The queued chunks, oldest first.
    pub closed spec fn queue(self) -> Seq<Seq<u8>> {
        Seq::new(self.items@.len(), |i: int| self.items@[i]@)
    }

    /// The fixed bound the channel was created with.
    pub closed spec fn cap(self) -> int {
        self.capacity as int
    }

    /// Whether the producing side has closed the channel.
    pub closed spec fn is_closed_spec(self) -> bool {
        self.closed
    }

    /// The channel never holds more chunks than its bound.
    pub closed spec fn wf(self) -> bool {
        self.cap() >= 1 && self.queue().len() <= self.cap()
    }

    /// A fresh, open, empty channel with the given bound.
    pub fn new(capacity: usize) -> (r: TransferChannel)
        requires
            capacity >= 1,
        ensures
            r.wf(),
            r.queue() == Seq::<Seq<u8>>::empty(),
            r.cap() == capacity,
            !r.is_closed_spec(),
    {
        let r = TransferChannel { items: Vec::new(), capacity, closed: false };
        proof {
            assert(r.queue() =~= Seq::<Seq<u8>>::empty());
        }
        r
    }

    /// How many chunks wait in the queue.
    pub fn len(&self) -> (r: usize)
        ensures
            r == self.queue().len(),
    {
        self.items.len()
    }

    /// Whether the producing side has closed the channel.
    pub fn is_closed(&self) -> (r: bool)
        ensures
            r == self.is_closed_spec(),
    {
        self.closed
    }

    /// Enqueue one chunk at the back.
    ///
    /// An open channel with room appends the chunk. A full or closed
    /// channel refuses and hands the chunk back untouched: refusal on a
    /// full queue is the backpressure the producer blocks on.
    pub fn try_send(&mut self, chunk: Vec<u8>) -> (r: Result<(), Vec<u8>>)
        requires
            old(self).wf(),
        ensures
            final(self).wf(),
            final(self).cap() == old(self).cap(),
            final(self).is_closed_spec() == old(self).is_closed_spec(),
            !old(self).is_closed_spec() && old(self).queue().len() < old(self).cap() ==> {
                &&& r is Ok
                &&& final(self).queue() == enqueue_model(old(self).queue(), chunk@)
            },
            old(self).is_closed_spec() || old(self).queue().len() >= old(self).cap() ==> {
                &&& r matches Err(c) && c == chunk
                &&& final(self).queue() == old(self).queue()
            },
    {
        if self.closed || self.items.len() >= self.capacity {
            return Err(chunk);
        }
        let ghost before = self.queue();
        let ghost sent = chunk@;
        self.items.push(chunk);
        proof {
            assert(self.queue() =~= enqueue_model(before, sent));
        }
        Ok(())
    }

    /// Dequeue the oldest chunk, if any.
    ///
    /// An empty queue yields `None` and is left as it was; whether that
    /// means "wait" or "end of stream" is told by `is_closed`.
    pub fn recv(&mut self) -> (r: Option<Vec<u8>>)
        requires
            old(self).wf(),
        ensures
            final(self).wf(),
            final(self).cap() == old(self).cap(),
            final(self).is_closed_spec() == old(self).is_closed_spec(),
            old(self).queue().len() == 0 ==> r is None && final(self).queue() == old(self).queue(),
            old(self).queue().len() > 0 ==> {
                &&& r matches Some(c) && c@ == dequeue_model(old(self).queue()).0
                &&& final(self).queue() == dequeue_model(old(self).queue()).1
            },
    {
        if self.items.len() == 0 {
            proof {
                assert(self.queue() =~= old(self).queue());
            }
            return None;
        }
        let ghost before = self.queue();
        let chunk = self.items.remove(0);
        proof {
            assert(self.queue() =~= dequeue_model(before).1);
        }
        Some(chunk)
    }

    /// Close the channel: the producing side is done.
    ///
    /// Chunks already queued stay and can still be received; nothing new
    /// can be sent.
    pub fn close(&mut self)
        requires
            old(self).wf(),
        ensures
            final(self).wf(),
            final(self).cap() == old(self).cap(),
            final(self).queue() == old(self).queue(),
            final(self).is_closed_spec(),
    {
        self.closed = true;
        proof {
            assert(self.queue() =~= old(self).queue());
        }
    }
}

/// The channel is FIFO: chunks enqueued in the order `a`, `b`, `c` come
/// out in the order `a`, `b`, `c`, leaving the queue as it began.
pub proof fn lemma_fifo_order(q: Seq<Seq<u8>>, a: Seq<u8>, b: Seq<u8>, c: Seq<u8>)
    requires
        q.len() == 0,
    ensures
        ({
            let q3 = enqueue_model(enqueue_model(enqueue_model(q, a), b), c);
            let (first, q4) = dequeue_model(q3);
            let (second, q5) = dequeue_model(q4);
            let (third, q6) = dequeue_model(q5);
            first == a && second == b && third == c && q6 == q
        }),
{
    let q3 = enqueue_model(enqueue_model(enqueue_model(q, a), b), c);
    assert(q3 =~= seq![a, b, c]);
    let (first, q4) = dequeue_model(q3);
    assert(q4 =~= seq![b, c]);
    let (second, q5) = dequeue_model(q4);
    assert(q5 =~= seq![c]);
    let (third, q6) = dequeue_model(q5);
    assert(q6 =~= q);
}

} // verus!
