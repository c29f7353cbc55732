use vstd::prelude::*;
use crate::batch::MessageBatch;
use crate::batch::concat_records;
use crate::batch::schemas_match;
use crate::error::Error;

verus! {

/// Configuration of the time/capacity-triggered memory buffer.
#[derive(Debug, Clone, Copy, PartialEq, Eq)]
pub struct MemoryBufferConfig {
    /// Cumulative row-count threshold that wakes a pending reader early.
    pub capacity: u32,
    /// Idle timeout driving the repeating flush timer, in milliseconds.
    pub timeout_ms: u64,
}

/// The batches of a run of buffered entries, in arrival order.
pub open spec fn entry_batches<A>(s: Seq<(MessageBatch, A)>) -> Seq<MessageBatch> {
    s.map_values(|e: (MessageBatch, A)| e.0)
}

/// The acks of a run of buffered entries, in arrival order.
pub open spec fn entry_acks<A>(s: Seq<(MessageBatch, A)>) -> Seq<A> {
    s.map_values(|e: (MessageBatch, A)| e.1)
}

/// Cumulative row count across a run of buffered entries.
pub open spec fn total_rows<A>(s: Seq<(MessageBatch, A)>) -> nat
    decreases s.len(),
{
    if s.len() == 0 {
        0
    } else {
        s[0].0.spec_records().len() + total_rows(s.drop_first())
    }
}

/// Appending one entry adds exactly its own row count.
pub proof fn lemma_total_rows_push<A>(s: Seq<(MessageBatch, A)>, e: (MessageBatch, A))
    ensures
        total_rows(s.push(e)) == total_rows(s) + e.0.spec_records().len(),
    decreases s.len(),
{
    if s.len() == 0 {
        assert(s.push(e)[0] == e);
        assert(s.push(e).drop_first() =~= Seq::<(MessageBatch, A)>::empty());
        assert(total_rows(s.push(e).drop_first()) == 0);
    } else {
        lemma_total_rows_push(s.drop_first(), e);
        assert(s.push(e).drop_first() =~= s.drop_first().push(e));
    }
}

/// A time/capacity-triggered accumulator: entries are pushed one at a time at
/// one end and drained all at once under one exclusive lock, which is what
/// makes the merge order well-defined (first-in, first-out by arrival).
///
/// An entry pairs a batch with the ack of whoever produced it; the entry is
/// owned exclusively by the buffer until drained. The ack payload is left
/// generic: the engine threads whatever completion capability its source
/// handed out.
pub struct MemoryBuffer<A> {
    config: MemoryBufferConfig,
    queue: Vec<(MessageBatch, A)>,
}

impl<A> MemoryBuffer<A> {
    /// The entries pending flush, oldest first.
    pub closed spec fn entries(self) -> Seq<(MessageBatch, A)> {
        self.queue@
    }

    /// The configuration the buffer was created with.
    pub closed spec fn cfg(self) -> MemoryBufferConfig {
        self.config
    }

    /// Create an empty buffer. The repeating idle timer that drives
    /// `timer_step` is scheduled by the surrounding runtime.
    pub fn new(config: MemoryBufferConfig) -> (r: Result<MemoryBuffer<A>, Error>)
        ensures
            r matches Ok(b) && b.entries().len() == 0 && b.cfg() == config,
    {
        Ok(MemoryBuffer { config, queue: Vec::new() })
    }

    /// Enqueue one entry and run the capacity check: the returned flag says
    /// whether the cumulative row count across everything now queued has
    /// reached the configured threshold, in which case a pending reader is
    /// woken at once rather than waiting for the timer.
    pub fn write(&mut self, msg: MessageBatch, ack: A) -> (wake: bool)
        ensures
            final(self).entries() == old(self).entries().push((msg, ack)),
            final(self).cfg() == old(self).cfg(),
            wake <==> total_rows(final(self).entries()) >= old(self).cfg().capacity,
    {
        self.queue.push((msg, ack));
        let ghost g = self.queue@;
        let mut cnt: u64 = 0;
        let mut i: usize = 0;
        #[verifier::loop_isolation(false)]
        while i < self.queue.len()
            invariant
                i <= self.queue@.len(),
                self.queue@ == g,
                cnt == if total_rows(g.take(i as int)) > u64::MAX { u64::MAX as nat } else {
                    total_rows(g.take(i as int))
                },
            decreases self.queue@.len() - i,
        {
            let rows = self.queue[i].0.len();
            cnt = cnt.saturating_add(rows as u64);
            proof {
                assert(g.take(i as int).push(g[i as int]) =~= g.take(i as int + 1));
                lemma_total_rows_push(g.take(i as int), g[i as int]);
            }
            i = i + 1;
        }
        proof {
            assert(g.take(g.len() as int) =~= g);
        }
        cnt >= self.config.capacity as u64
    }

    /// Drain and merge everything queued, called once a read has been woken
    /// (by timer expiry, by the capacity check, or by a manual flush).
    ///
    /// An empty queue yields no batch. Otherwise the whole queue is drained
    /// atomically; if every queued batch shares one schema, the result is one
    /// merged batch holding every record in arrival order, paired with the
    /// drained acks in arrival order — the children of the composite ack the
    /// reader hands downstream. A schema mismatch anywhere is a processing
    /// error; the drained entries are not requeued.
    pub fn process_messages(&mut self) -> (r: Result<Option<(MessageBatch, Vec<A>)>, Error>)
        ensures
            final(self).entries().len() == 0,
            final(self).cfg() == old(self).cfg(),
            old(self).entries().len() == 0 ==> (r matches Ok(x) && x is None),
            old(self).entries().len() > 0 && schemas_match(entry_batches(old(self).entries()))
                ==> (r matches Ok(x) && x matches Some(p)
                && p.0.spec_schema() == old(self).entries()[0].0.spec_schema()
                && p.0.spec_records() == concat_records(entry_batches(old(self).entries()))
                && p.1@ == entry_acks(old(self).entries())),
            old(self).entries().len() > 0 && !schemas_match(entry_batches(old(self).entries()))
                ==> (r matches Err(e) && e is Process),
    {
        if self.queue.len() == 0 {
            return Ok(None);
        }
        let ghost g = self.queue@;
        let mut msgs: Vec<MessageBatch> = Vec::new();
        let mut acks: Vec<A> = Vec::new();
        #[verifier::loop_isolation(false)]
        while self.queue.len() > 0
            invariant
                msgs@.len() == acks@.len(),
                msgs@.len() + self.queue@.len() == g.len(),
                self.queue@ =~= g.subrange(msgs@.len() as int, g.len() as int),
                self.config == old(self).config,
                forall|i: int|
                    0 <= i < msgs@.len() ==> msgs@[i] == (#[trigger] g[i]).0 && acks@[i] == g[i].1,
            decreases self.queue@.len(),
        {
            let e = self.queue.remove(0);
            proof {
                assert(e == g[msgs@.len() as int]);
                assert(self.queue@ =~= g.subrange(msgs@.len() as int + 1, g.len() as int));
            }
            msgs.push(e.0);
            acks.push(e.1);
        }
        proof {
            assert(msgs@ =~= entry_batches(g));
            assert(acks@ =~= entry_acks(g));
        }
        match crate::batch::merge(msgs) {
            Ok(b) => Ok(Some((b, acks))),
            Err(e) => Err(e),
        }
    }
}

/// What the buffer's background timing loop observed in one cycle: the
/// repeating idle timer expired, an external wake arrived (a write reaching
/// capacity, or a manual flush), or the close signal was raised.
pub enum TimerEvent {
    Expired,
    Woken,
    Closed,
}

/// What the timing loop does next.
pub enum TimerAction {
    /// Notify a waiting reader, restart the timer, and run another cycle.
    NotifyAndRestart,
    /// Notify a waiting reader once more, so a blocked read observes
    /// shutdown, and exit the loop.
    NotifyAndExit,
}

/// One cycle of the reference timing algorithm: every observed event reaches
/// a waiting reader, and only the close signal ends the loop. Net effect:
/// while quiescent the buffer emits at most one merged batch per idle
/// timeout, or sooner whenever the capacity threshold is reached or a manual
/// flush occurs; with zero writes a blocked read is woken no earlier than the
/// timer expiry.
pub fn timer_step(ev: TimerEvent) -> (a: TimerAction)
    ensures
        ev is Closed ==> a is NotifyAndExit,
        !(ev is Closed) ==> a is NotifyAndRestart,
{
    match ev {
        TimerEvent::Expired => TimerAction::NotifyAndRestart,
        TimerEvent::Woken => TimerAction::NotifyAndRestart,
        TimerEvent::Closed => TimerAction::NotifyAndExit,
    }
}

} // verus!
