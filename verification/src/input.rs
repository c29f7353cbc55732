use vstd::prelude::*;
use crate::ack::Ack;
use crate::batch::MessageBatch;
use crate::batch::STRING_SCHEMA;
use crate::error::Error;

verus! {

/// Memory input configuration: an optional ordered list of seed text
/// messages.
#[derive(Debug, Clone, PartialEq, Eq)]
pub struct MemoryInputConfig {
    /// Initial messages for the memory queue.
    pub messages: Option<Vec<String>>,
}

/// A source reading from an in-memory message queue: reads drain one batch
/// at a time and report graceful exhaustion once the queue is empty.
#[derive(Debug)]
pub struct MemoryInput {
    queue: Vec<MessageBatch>,
    connected: bool,
}

/// The batches a memory input starts with: one single-record batch per seed
/// message, in order, each carrying the plain-text schema.
pub open spec fn holds_seed_batches(queue: Seq<MessageBatch>, messages: Option<Vec<String>>) -> bool {
    match messages {
        Option::None => queue.len() == 0,
        Option::Some(m) => queue.len() == m@.len() && forall|i: int|
            0 <= i < m@.len() ==> (#[trigger] queue[i]).spec_schema() == STRING_SCHEMA
                && queue[i].spec_records().len() == 1 && queue[i].spec_records()[0] == m@[i],
    }
}

impl MemoryInput {
    /// The batches still queued, oldest first.
    pub closed spec fn spec_queue(self) -> Seq<MessageBatch> {
        self.queue@
    }

    /// Whether the source is between a connect and a close.
    pub closed spec fn spec_connected(self) -> bool {
        self.connected
    }

    /// Create a memory input seeded with the configured messages, not yet
    /// connected.
    pub fn new(config: MemoryInputConfig) -> (r: Result<MemoryInput, Error>)
        ensures
            r matches Ok(inp) && holds_seed_batches(inp.spec_queue(), config.messages)
                && !inp.spec_connected(),
    {
        let mut queue: Vec<MessageBatch> = Vec::new();
        match config.messages {
            Option::None => {},
            Option::Some(msgs) => {
                let ghost m0 = msgs@;
                let mut rest = msgs;
                #[verifier::loop_isolation(false)]
                while rest.len() > 0
                    invariant
                        queue@.len() + rest@.len() == m0.len(),
                        rest@ =~= m0.subrange(queue@.len() as int, m0.len() as int),
                        forall|i: int|
                            0 <= i < queue@.len() ==> (#[trigger] queue@[i]).spec_schema()
                                == STRING_SCHEMA && queue@[i].spec_records().len() == 1
                                && queue@[i].spec_records()[0] == m0[i],
                    decreases rest@.len(),
                {
                    let s = rest.remove(0);
                    proof {
                        assert(s == m0[queue@.len() as int]);
                        assert(rest@ =~= m0.subrange(queue@.len() as int + 1, m0.len() as int));
                    }
                    match MessageBatch::from_string(s) {
                        Ok(b) => queue.push(b),
                        Err(e) => {
                            return Err(e);
                        },
                    }
                }
            },
        }
        Ok(MemoryInput { queue, connected: false })
    }

    /// Append one batch to the in-memory queue.
    pub fn push(&mut self, msg: MessageBatch) -> (r: Result<(), Error>)
        ensures
            final(self).spec_queue() == old(self).spec_queue().push(msg),
            final(self).spec_connected() == old(self).spec_connected(),
            r is Ok,
    {
        self.queue.push(msg);
        Ok(())
    }

    /// Connect the source; reads are answered only between a connect and a
    /// close.
    pub fn connect(&mut self) -> (r: Result<(), Error>)
        ensures
            final(self).spec_connected(),
            final(self).spec_queue() == old(self).spec_queue(),
            r is Ok,
    {
        self.connected = true;
        Ok(())
    }

    /// One read: a connection error before connect or after close; otherwise
    /// the oldest queued batch with an ack that tracks nothing, or graceful
    /// exhaustion once the queue is empty.
    pub fn read(&mut self) -> (r: Result<(MessageBatch, Ack), Error>)
        ensures
            !old(self).spec_connected() ==> (r matches Err(e) && e is Connection)
                && *final(self) == *old(self),
            old(self).spec_connected() && old(self).spec_queue().len() == 0 ==> (r matches Err(e)
                && e is EOF) && *final(self) == *old(self),
            old(self).spec_connected() && old(self).spec_queue().len() > 0 ==> (r matches Ok(p)
                && p.0 == old(self).spec_queue()[0] && p.1 == Ack::Noop)
                && final(self).spec_queue() == old(self).spec_queue().drop_first()
                && final(self).spec_connected(),
    {
        if !self.connected {
            return Err(Error::Connection("the input is not connected".to_owned()));
        }
        if self.queue.len() > 0 {
            let msg = self.queue.remove(0);
            proof {
                assert(self.queue@ =~= old(self).queue@.drop_first());
            }
            Ok((msg, Ack::Noop))
        } else {
            Err(Error::EOF)
        }
    }

    /// Close the source; a later read reports a connection error again.
    pub fn close(&mut self) -> (r: Result<(), Error>)
        ensures
            !final(self).spec_connected(),
            final(self).spec_queue() == old(self).spec_queue(),
            r is Ok,
    {
        self.connected = false;
        Ok(())
    }
}

} // verus!
