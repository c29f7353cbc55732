use vstd::prelude::*;
use crate::ack::Ack;
use crate::batch::MessageBatch;
use crate::buffer::MemoryBuffer;
use crate::buffer::MemoryBufferConfig;
use crate::error::Error;
use crate::input::MemoryInput;
use crate::input::MemoryInputConfig;
use crate::input::holds_seed_batches;

verus! {

/// A complete data processing unit: one source, one worker pool of a fixed
/// size, an optional buffer between source and workers, and — wired up by
/// the surrounding runtime — one pipeline and one sink. Constructed once,
/// run once, closed once.
///
/// The pipeline and the sink are dynamically dispatched capabilities of the
/// runtime; this core owns the source, the optional buffer, and every
/// decision the spawned tasks take, through the step functions below.
pub struct Stream {
    input: MemoryInput,
    thread_num: u32,
    /// The optional buffer between source and ingress channel.
    pub buffer: Option<MemoryBuffer<Ack>>,
}

impl Stream {
    /// The source this stream owns.
    pub closed spec fn spec_input(self) -> MemoryInput {
        self.input
    }

    /// The optional buffer this stream owns.
    pub closed spec fn spec_buffer(self) -> Option<MemoryBuffer<Ack>> {
        self.buffer
    }

    /// The fixed worker count.
    pub closed spec fn spec_thread_num(self) -> u32 {
        self.thread_num
    }

    /// Worker count at least one, and the derived channel capacity
    /// representable on this machine.
    pub open spec fn wf(self) -> bool {
        self.spec_thread_num() >= 1 && 4 * self.spec_thread_num() as int <= usize::MAX as int
    }

    /// Create a new stream.
    pub fn new(input: MemoryInput, buffer: Option<MemoryBuffer<Ack>>, thread_num: u32) -> (r:
        Stream)
        requires
            thread_num >= 1,
            4 * thread_num as int <= usize::MAX as int,
        ensures
            r.spec_input() == input,
            r.spec_buffer() == buffer,
            r.spec_thread_num() == thread_num,
            r.wf(),
    {
        Stream { input, thread_num, buffer }
    }

    /// The fixed worker count, one processor task per worker.
    pub fn worker_count(&self) -> (r: u32)
        ensures
            r == self.spec_thread_num(),
    {
        self.thread_num
    }

    /// Capacity of the two bounded channels (ingress and egress): four slots
    /// per worker, so a full channel suspends its producers instead of
    /// dropping data.
    pub fn channel_capacity(&self) -> (r: usize)
        requires
            self.wf(),
        ensures
            r == 4 * self.spec_thread_num(),
    {
        self.thread_num as usize * 4
    }
}

/// What the source feeder observed in one cycle: the shared cancellation
/// signal, or the outcome of one read attempt.
pub enum InputEvent<A> {
    Cancelled,
    Read(Result<(MessageBatch, A), Error>),
}

/// What the source feeder does next.
pub enum InputAction<A> {
    /// Cancellation observed: exit at once, the in-flight read abandoned.
    Exit,
    /// Graceful exhaustion of the source: exit cleanly with no error. The
    /// feeder does not itself close the ingress channel — other senders may
    /// remain, and batches already in flight drain undisturbed.
    ExitEof,
    /// A fatal configuration error: log it and exit, no retry.
    ExitFatal(Error),
    /// A batch was read and a buffer is configured: hand it to the buffer.
    WriteBuffer(MessageBatch, A),
    /// A batch was read and no buffer is configured: enqueue it to ingress,
    /// suspending under backpressure. If the enqueue itself fails because
    /// the channel closed, the feeder exits.
    Enqueue(MessageBatch, A),
    /// Transient disconnection: enter the reconnect loop.
    Reconnect,
    /// Any other error: log it and continue with the next read.
    SkipTransient(Error),
}

/// The source feeder's reaction to one observed event.
pub open spec fn input_transition<A>(buffered: bool, ev: InputEvent<A>) -> InputAction<A> {
    match ev {
        InputEvent::Cancelled => InputAction::Exit,
        InputEvent::Read(r) => match r {
            Ok((msg, ack)) => if buffered {
                InputAction::WriteBuffer(msg, ack)
            } else {
                InputAction::Enqueue(msg, ack)
            },
            Err(e) => match e {
                Error::EOF => InputAction::ExitEof,
                Error::Disconnection => InputAction::Reconnect,
                Error::Config(m) => InputAction::ExitFatal(Error::Config(m)),
                other => InputAction::SkipTransient(other),
            },
        },
    }
}

/// One step of the source feeder state machine: each cycle races the
/// cancellation signal against one read attempt and reacts to whichever won.
pub fn input_step<A>(buffered: bool, ev: InputEvent<A>) -> (a: InputAction<A>)
    ensures
        a == input_transition(buffered, ev),
{
    match ev {
        InputEvent::Cancelled => InputAction::Exit,
        InputEvent::Read(r) => match r {
            Ok((msg, ack)) => if buffered {
                InputAction::WriteBuffer(msg, ack)
            } else {
                InputAction::Enqueue(msg, ack)
            },
            Err(e) => match e {
                Error::EOF => InputAction::ExitEof,
                Error::Disconnection => InputAction::Reconnect,
                Error::Config(m) => InputAction::ExitFatal(Error::Config(m)),
                other => InputAction::SkipTransient(other),
            },
        },
    }
}

/// Fixed delay between failed reconnect attempts, in milliseconds.
pub const RECONNECT_BACKOFF_MS: u64 = 5000;

/// What the reconnect loop does after one connect attempt.
#[derive(Debug, PartialEq, Eq)]
pub enum ReconnectAction {
    /// Connected again: leave the loop and resume normal reads.
    Resume,
    /// The attempt failed: log it, sleep this many milliseconds, try again.
    /// This inner loop does not observe cancellation — a documented
    /// shutdown-latency limitation.
    Backoff(u64),
}

/// One step of the feeder's inner reconnect loop, entered on a transient
/// disconnection and left only on a successful connect.
pub fn reconnect_step(r: &Result<(), Error>) -> (a: ReconnectAction)
    ensures
        r is Ok ==> a == ReconnectAction::Resume,
        r is Err ==> a == ReconnectAction::Backoff(RECONNECT_BACKOFF_MS),
{
    match r {
        Ok(_) => ReconnectAction::Resume,
        Err(_) => ReconnectAction::Backoff(RECONNECT_BACKOFF_MS),
    }
}

/// How many connect calls the reconnect loop makes, given the outcome of
/// each successive attempt: it stops at the first success, having slept the
/// fixed backoff once after every failed attempt before it. `None` means no
/// attempt in the given run succeeded and the loop is still retrying.
pub fn reconnect_attempts(outcomes: &Vec<bool>) -> (r: Option<usize>)
    ensures
        (r is Some) <==> (exists|i: int| 0 <= i < outcomes@.len() && outcomes@[i]),
        r matches Some(n) ==> 1 <= n <= outcomes@.len() && outcomes@[n - 1] && forall|i: int|
            0 <= i < n - 1 ==> !outcomes@[i],
{
    let mut i: usize = 0;
    #[verifier::loop_isolation(false)]
    while i < outcomes.len()
        invariant
            i <= outcomes@.len(),
            forall|j: int| 0 <= j < i ==> !outcomes@[j],
        decreases outcomes@.len() - i,
    {
        if outcomes[i] {
            return Some(i + 1);
        }
        i = i + 1;
    }
    None
}

/// What the buffer feeder observed in one cycle: the shared cancellation
/// signal, or the outcome of one buffer read.
pub enum BufferEvent<A> {
    Cancelled,
    Read(Result<Option<(MessageBatch, A)>, Error>),
}

/// What the buffer feeder does next.
pub enum BufferAction<A> {
    /// Cancellation observed: exit, closing the buffer as part of this
    /// task's own shutdown. The close stops the internal timer and wakes
    /// any blocked reader once more, so it observes shutdown.
    ExitAndClose,
    /// A merged batch was produced: forward it to ingress, suspending under
    /// backpressure. If the enqueue itself fails because the channel
    /// closed, the feeder exits, closing the buffer as above.
    Enqueue(MessageBatch, A),
    /// The reader woke with nothing queued: keep looping.
    Continue,
    /// The read failed (a merge or schema-mismatch processing error): log
    /// it and continue with the next cycle — per-item failures never abort
    /// the stream.
    SkipTransient(Error),
}

/// The buffer feeder's reaction to one observed event.
pub open spec fn buffer_transition<A>(ev: BufferEvent<A>) -> BufferAction<A> {
    match ev {
        BufferEvent::Cancelled => BufferAction::ExitAndClose,
        BufferEvent::Read(r) => match r {
            Ok(v) => match v {
                Some((msg, ack)) => BufferAction::Enqueue(msg, ack),
                None => BufferAction::Continue,
            },
            Err(e) => BufferAction::SkipTransient(e),
        },
    }
}

/// One step of the buffer feeder, present only when a buffer is configured:
/// each cycle races cancellation against the buffer's read.
pub fn buffer_step<A>(ev: BufferEvent<A>) -> (a: BufferAction<A>)
    ensures
        a == buffer_transition(ev),
{
    match ev {
        BufferEvent::Cancelled => BufferAction::ExitAndClose,
        BufferEvent::Read(r) => match r {
            Ok(v) => match v {
                Some((msg, ack)) => BufferAction::Enqueue(msg, ack),
                None => BufferAction::Continue,
            },
            Err(e) => BufferAction::SkipTransient(e),
        },
    }
}

/// What a processor worker does with one unit of work.
pub enum ProcessorAction<A> {
    /// The pipeline succeeded: forward its ordered outputs, paired with the
    /// same ack the input batch carried, to egress.
    Forward(Vec<MessageBatch>, A),
    /// The pipeline failed: the input counts as consumed even with no output
    /// produced — fire its ack immediately, log, and continue with the next
    /// item. No retry, no pipeline restart.
    FireAck(A),
}

/// A processor worker's reaction to one pipeline outcome.
pub open spec fn processor_transition<A>(
    processed: Result<Vec<MessageBatch>, Error>,
    ack: A,
) -> ProcessorAction<A> {
    match processed {
        Ok(msgs) => ProcessorAction::Forward(msgs, ack),
        Err(_) => ProcessorAction::FireAck(ack),
    }
}

/// One step of a processor worker: it received one (batch, ack) pair from
/// ingress and ran the pipeline on the batch.
pub fn processor_step<A>(processed: Result<Vec<MessageBatch>, Error>, ack: A) -> (a:
    ProcessorAction<A>)
    ensures
        a == processor_transition(processed, ack),
{
    match processed {
        Ok(msgs) => ProcessorAction::Forward(msgs, ack),
        Err(_) => ProcessorAction::FireAck(ack),
    }
}

/// Whether every write of a group succeeded.
pub open spec fn group_delivered(write_ok: Seq<bool>) -> bool {
    forall|i: int| 0 <= i < write_ok.len() ==> write_ok[i]
}

/// The sink task's decision for one group received from egress, given the
/// per-batch outcome of writing each batch sequentially: the group's ack
/// fires if and only if every batch in the group wrote successfully. On any
/// failure the whole group's ack is withheld; the successful writes are
/// neither retried nor rolled back — a documented at-most-once risk on
/// partial sink failure.
pub fn output_step(write_ok: &Vec<bool>) -> (fire: bool)
    ensures
        fire == group_delivered(write_ok@),
{
    let mut success_cnt: usize = 0;
    let mut i: usize = 0;
    #[verifier::loop_isolation(false)]
    while i < write_ok.len()
        invariant
            i <= write_ok@.len(),
            success_cnt <= i,
            (success_cnt == i) <==> group_delivered(write_ok@.take(i as int)),
        decreases write_ok@.len() - i,
    {
        proof {
            assert(forall|j: int|
                0 <= j < i + 1 ==> write_ok@.take(i as int + 1)[j] == write_ok@[j]);
        }
        if write_ok[i] {
            success_cnt = success_cnt + 1;
        }
        i = i + 1;
    }
    proof {
        assert(write_ok@.take(write_ok@.len() as int) =~= write_ok@);
    }
    success_cnt == write_ok.len()
}

/// Exactly-once acknowledgment. A unit of work entering a processor is
/// resolved in exactly one place: on pipeline failure its ack fires
/// immediately and nothing reaches the sink; on pipeline success the unit is
/// forwarded unchanged and the sink fires the very same ack exactly when the
/// whole group writes successfully. So, on either resolution path — full
/// sink delivery of the group, or immediate ack on pipeline failure — the
/// ack fires exactly once, never twice; on partial sink failure it is
/// withheld and fires nowhere.
pub proof fn lemma_ack_exactly_once<A>(
    processed: Result<Vec<MessageBatch>, Error>,
    ack: A,
    write_ok: Seq<bool>,
)
    ensures
        (processor_transition(processed, ack) is FireAck) <==> (processed is Err),
        (processor_transition(processed, ack) is Forward) <==> (processed is Ok),
        processed matches Ok(msgs) ==> processor_transition(processed, ack)
            == ProcessorAction::Forward(msgs, ack),
        processed is Err ==> processor_transition(processed, ack) == ProcessorAction::FireAck(ack),
        (processed is Err || group_delivered(write_ok)) ==> ({
            let fired_at_processor: int = if processed is Err { 1 } else { 0 };
            let fired_at_sink: int = if processed is Ok && group_delivered(write_ok) { 1 } else { 0 };
            fired_at_processor + fired_at_sink == 1
        }),
{
}

/// Withheld acknowledgment on partial sink failure: one failed write in a
/// group keeps the whole group's ack from firing, whatever the other writes
/// did.
pub proof fn lemma_partial_sink_failure(write_ok: Seq<bool>)
    requires
        exists|i: int| 0 <= i < write_ok.len() && !write_ok[i],
    ensures
        !group_delivered(write_ok),
{
}

/// Configuration of the source section: the implementations this core
/// itself provides.
#[derive(Debug, Clone, PartialEq, Eq)]
pub enum InputConfig {
    Memory(MemoryInputConfig),
}

/// Configuration of the optional buffer section.
#[derive(Debug, Clone, PartialEq, Eq)]
pub enum BufferConfig {
    Memory(MemoryBufferConfig),
}

/// Configuration of the transformation pipeline: the worker thread count,
/// one by default. The pipeline's own processors are capabilities of the
/// surrounding runtime.
#[derive(Debug, Clone, PartialEq, Eq)]
pub struct PipelineConfig {
    pub thread_num: Option<u32>,
}

/// Configuration of the sink section: the name under which a sink
/// implementation is registered. The registry itself, and every concrete
/// sink, are capabilities of the surrounding runtime.
#[derive(Debug, Clone, PartialEq, Eq)]
pub struct OutputConfig {
    pub name: String,
}

/// Stream configuration: required source, pipeline and sink sections, plus
/// an optional buffer section.
#[derive(Debug, Clone, PartialEq, Eq)]
pub struct StreamConfig {
    pub input: InputConfig,
    pub pipeline: PipelineConfig,
    pub output: OutputConfig,
    pub buffer: Option<BufferConfig>,
}

/// The worker count a pipeline section asks for: its thread count, one by
/// default.
pub open spec fn spec_workers(p: PipelineConfig) -> u32 {
    match p.thread_num {
        Option::None => 1,
        Option::Some(n) => n,
    }
}

/// Whether a pipeline section's worker count is usable: at least one worker,
/// and a derived channel capacity this machine can represent.
pub open spec fn valid_workers(p: PipelineConfig) -> bool {
    spec_workers(p) >= 1 && 4 * spec_workers(p) as int <= usize::MAX as int
}

fn clone_strings(v: &Vec<String>) -> (r: Vec<String>)
    ensures
        r@ == v@,
{
    let mut r: Vec<String> = Vec::new();
    let mut i: usize = 0;
    #[verifier::loop_isolation(false)]
    while i < v.len()
        invariant
            i <= v@.len(),
            r@.len() == i,
            forall|j: int| 0 <= j < i ==> r@[j] == v@[j],
        decreases v@.len() - i,
    {
        r.push(v[i].clone());
        i = i + 1;
    }
    proof {
        assert(r@ =~= v@);
    }
    r
}

impl StreamConfig {
    /// Build a stream based on this configuration: concrete source and
    /// buffer instances plus the worker thread count, or a configuration
    /// error when the pipeline section asks for no worker at all or for more
    /// than this machine's channels can be sized for.
    pub fn build(&self) -> (r: Result<Stream, Error>)
        ensures
            !valid_workers(self.pipeline) ==> (r matches Err(e) && e is Config),
            valid_workers(self.pipeline) ==> (r matches Ok(s) && s.wf() && s.spec_thread_num()
                == spec_workers(self.pipeline) && (match self.input {
                InputConfig::Memory(c) => holds_seed_batches(s.spec_input().spec_queue(), c.messages)
                    && !s.spec_input().spec_connected(),
            }) && (match self.buffer {
                Option::None => s.spec_buffer() is None,
                Option::Some(BufferConfig::Memory(c)) => (s.spec_buffer() matches Some(b)
                    && b.entries().len() == 0 && b.cfg() == c),
            })),
    {
        let thread_num: u32 = match self.pipeline.thread_num {
            Option::None => 1,
            Option::Some(n) => n,
        };
        if thread_num == 0 {
            return Err(Error::Config("pipeline worker count must be at least one".to_owned()));
        }
        if (thread_num as u64) * 4 > (usize::MAX as u64) {
            return Err(Error::Config("pipeline worker count too large".to_owned()));
        }
        let input = match &self.input {
            InputConfig::Memory(c) => {
                let messages = match &c.messages {
                    Option::None => Option::None,
                    Option::Some(v) => Option::Some(clone_strings(v)),
                };
                match MemoryInput::new(MemoryInputConfig { messages }) {
                    Ok(i) => i,
                    Err(e) => {
                        return Err(e);
                    },
                }
            },
        };
        let buffer = match &self.buffer {
            Option::None => Option::None,
            Option::Some(BufferConfig::Memory(c)) => match MemoryBuffer::new(*c) {
                Ok(b) => Option::Some(b),
                Err(e) => {
                    return Err(e);
                },
            },
        };
        Ok(Stream::new(input, buffer, thread_num))
    }
}

} // verus!
