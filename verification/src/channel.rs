use vstd::prelude::*;

verus! {

/// Outcome of one send attempt on a bounded channel.
pub enum SendOutcome<T> {
    /// The item was enqueued at the back.
    Accepted,
    /// The channel is full: cooperative backpressure. The producer keeps the
    /// item — handed back here — and suspends until space frees; nothing is
    /// dropped and nothing fails.
    Suspended(T),
}

/// Outcome of one receive attempt on a bounded channel.
pub enum RecvOutcome<T> {
    /// The oldest queued item.
    Received(T),
    /// The queue is empty but sender handles remain: the consumer suspends
    /// until an item arrives or the last sender is dropped.
    Suspended,
    /// Every sender handle has been dropped and the queue is drained: the
    /// consumer terminates. This drop-to-close pattern is the only shutdown
    /// signal the worker pool and the sink task need.
    Closed,
}

/// A bounded multi-producer/multi-consumer queue: per-channel FIFO, a hard
/// capacity that suspends producers (backpressure), and close-on-drain once
/// the count of live sender handles reaches zero.
pub struct Channel<T> {
    items: Vec<T>,
    capacity: usize,
    senders: usize,
}

impl<T> Channel<T> {
    /// The queued items, oldest first.
    pub closed spec fn contents(self) -> Seq<T> {
        self.items@
    }

    /// The hard bound on how many items may be queued at once.
    pub closed spec fn cap(self) -> nat {
        self.capacity as nat
    }

    /// How many sender handles are still live.
    pub closed spec fn sender_count(self) -> nat {
        self.senders as nat
    }

    /// A channel is closed once every sender handle has been dropped.
    pub open spec fn is_closed(self) -> bool {
        self.sender_count() == 0
    }

    /// The queue never holds more than its capacity.
    pub open spec fn wf(self) -> bool {
        self.contents().len() <= self.cap()
    }

    /// Whether a send is accepted in the current state: only while the queue
    /// is below capacity.
    pub open spec fn accepts(self) -> bool {
        self.contents().len() < self.cap()
    }

    /// Create a bounded channel with one live sender handle and no items.
    pub fn bounded(capacity: usize) -> (c: Channel<T>)
        ensures
            c.contents().len() == 0,
            c.cap() == capacity,
            c.sender_count() == 1,
            c.wf(),
    {
        Channel { items: Vec::new(), capacity, senders: 1 }
    }

    /// Clone a sender handle, keeping the channel open.
    pub fn clone_sender(&mut self)
        requires
            old(self).sender_count() < usize::MAX,
        ensures
            final(self).sender_count() == old(self).sender_count() + 1,
            final(self).contents() == old(self).contents(),
            final(self).cap() == old(self).cap(),
    {
        self.senders = self.senders + 1;
    }

    /// Drop one sender handle; dropping the last one closes the channel.
    pub fn drop_sender(&mut self)
        requires
            old(self).sender_count() >= 1,
        ensures
            final(self).sender_count() == old(self).sender_count() - 1,
            final(self).contents() == old(self).contents(),
            final(self).cap() == old(self).cap(),
    {
        self.senders = self.senders - 1;
    }

    /// One send attempt: enqueued at the back while below capacity; at
    /// capacity the producer is suspended, keeps its item, and the queue is
    /// unchanged.
    pub fn try_send(&mut self, x: T) -> (r: SendOutcome<T>)
        ensures
            old(self).accepts() ==> final(self).contents() == old(self).contents().push(x) && r
                is Accepted,
            !old(self).accepts() ==> final(self).contents() == old(self).contents() && (r matches
                SendOutcome::Suspended(y) && y == x),
            final(self).cap() == old(self).cap(),
            final(self).sender_count() == old(self).sender_count(),
            old(self).wf() ==> final(self).wf(),
    {
        if self.items.len() < self.capacity {
            self.items.push(x);
            SendOutcome::Accepted
        } else {
            SendOutcome::Suspended(x)
        }
    }

    /// One receive attempt: the oldest item when one is queued; otherwise the
    /// consumer suspends while senders remain, and observes closure once the
    /// last sender is gone — so a consumer terminates by simply draining.
    pub fn try_recv(&mut self) -> (r: RecvOutcome<T>)
        ensures
            old(self).contents().len() > 0 ==> (r matches RecvOutcome::Received(y)
                && y == old(self).contents()[0])
                && final(self).contents() == old(self).contents().drop_first(),
            old(self).contents().len() == 0 && !old(self).is_closed() ==> r is Suspended
                && final(self).contents() == old(self).contents(),
            old(self).contents().len() == 0 && old(self).is_closed() ==> r is Closed
                && final(self).contents() == old(self).contents(),
            final(self).cap() == old(self).cap(),
            final(self).sender_count() == old(self).sender_count(),
            old(self).wf() ==> final(self).wf(),
    {
        if self.items.len() > 0 {
            let x = self.items.remove(0);
            proof {
                assert(self.items@ =~= old(self).items@.drop_first());
            }
            RecvOutcome::Received(x)
        } else if self.senders == 0 {
            RecvOutcome::Closed
        } else {
            RecvOutcome::Suspended
        }
    }
}

/// Backpressure: a bounded channel already holding `capacity` items accepts
/// no further send — together with the contract of `try_send`, the producer
/// of the item beyond capacity is suspended and keeps its item, while the
/// queued contents stay exactly as they were: nothing is dropped, nothing
/// fails.
pub proof fn lemma_backpressure<T>(c: Channel<T>)
    requires
        c.wf(),
        c.contents().len() == c.cap(),
    ensures
        !c.accepts(),
{
}

/// The queue contents after attempting the given sends in order, each
/// enqueued while below capacity and refused otherwise, exactly as
/// `try_send` behaves.
pub open spec fn after_sends<T>(s: Seq<T>, cap: nat, xs: Seq<T>) -> Seq<T>
    decreases xs.len(),
{
    if xs.len() == 0 {
        s
    } else {
        after_sends(if s.len() < cap { s.push(xs[0]) } else { s }, cap, xs.drop_first())
    }
}

/// Backpressure over a whole burst: producing one batch more than the
/// capacity of a channel, before any consumer drains it, queues exactly the
/// first `capacity` batches in order; the batch beyond capacity is refused —
/// its producer suspends and retries, rather than the channel dropping data
/// or failing.
pub proof fn lemma_burst_beyond_capacity<T>(s: Seq<T>, cap: nat, xs: Seq<T>)
    requires
        s.len() <= cap,
        s.len() + xs.len() == cap + 1,
    ensures
        after_sends(s, cap, xs) == (s + xs).take(cap as int),
    decreases xs.len(),
{
    if s.len() < cap {
        lemma_burst_beyond_capacity(s.push(xs[0]), cap, xs.drop_first());
        assert(s.push(xs[0]) + xs.drop_first() =~= s + xs);
    } else {
        assert(xs.len() == 1);
        assert(after_sends(s, cap, xs) == after_sends(s, cap, xs.drop_first()));
        assert((s + xs).take(cap as int) =~= s);
    }
}

} // verus!
