use arkflow::ack::Ack;
use arkflow::ack::CompositeAck;
use arkflow::batch::MessageBatch;
use arkflow::batch::STRING_SCHEMA;
use arkflow::batch::merge;
use arkflow::channel::Channel;
use arkflow::channel::RecvOutcome;
use arkflow::channel::SendOutcome;
use arkflow::error::Error;
use arkflow::input::MemoryInput;
use arkflow::input::MemoryInputConfig;

fn text_batch(schema: u64, records: &[&str]) -> MessageBatch {
    MessageBatch::new(schema, records.iter().map(|s| s.to_string()).collect())
}

#[test]
fn from_string_single_record() {
    let b = MessageBatch::from_string("hello".to_string()).unwrap();
    assert_eq!(b.schema(), STRING_SCHEMA);
    assert_eq!(b.len(), 1);
}

#[test]
fn merge_concatenates_in_order() {
    let b1 = text_batch(1, &["a", "b"]);
    let b2 = text_batch(1, &["c"]);
    let merged = merge(vec![b1, b2]).unwrap();
    assert_eq!(merged.schema(), 1);
    assert_eq!(merged, text_batch(1, &["a", "b", "c"]));
}

#[test]
fn merge_schema_mismatch_is_process_error() {
    let b1 = text_batch(1, &["a"]);
    let b2 = text_batch(2, &["b"]);
    match merge(vec![b1, b2]) {
        Err(Error::Process(_)) => {}
        other => panic!("expected a processing error, got {:?}", other),
    }
}

#[test]
fn noop_ack_fires_nothing() {
    assert_eq!(Ack::Noop.fire(), Vec::<u64>::new());
}

#[test]
fn composite_fires_children_once_in_order() {
    let composite = CompositeAck::new(vec![Ack::Token(1), Ack::Noop, Ack::Token(2)]);
    assert_eq!(composite.fire(), vec![1, 2]);
}

#[test]
fn empty_composite_fires_nothing() {
    assert_eq!(CompositeAck::new(vec![]).fire(), Vec::<u64>::new());
}

#[test]
fn backpressure_suspends_send_beyond_capacity() {
    // Ingress capacity for one worker: 4 x 1.
    let mut ch: Channel<u64> = Channel::bounded(4);
    for i in 0..4u64 {
        assert!(matches!(ch.try_send(i), SendOutcome::Accepted));
    }
    // The fifth batch suspends the producer, which keeps its item; nothing
    // is dropped and nothing fails.
    match ch.try_send(4) {
        SendOutcome::Suspended(item) => assert_eq!(item, 4),
        SendOutcome::Accepted => panic!("a full channel must not accept a send"),
    }
    // The queued items are all still there, in FIFO order.
    for i in 0..4u64 {
        match ch.try_recv() {
            RecvOutcome::Received(x) => assert_eq!(x, i),
            _ => panic!("expected a queued item"),
        }
    }
}

#[test]
fn channel_closes_once_senders_dropped_and_drained() {
    let mut ch: Channel<u64> = Channel::bounded(2);
    assert!(matches!(ch.try_send(7), SendOutcome::Accepted));
    assert!(matches!(ch.try_recv(), RecvOutcome::Received(7)));
    // Empty but a sender remains: the consumer suspends.
    assert!(matches!(ch.try_recv(), RecvOutcome::Suspended));
    // Last sender dropped and queue drained: the consumer observes closure.
    ch.drop_sender();
    assert!(matches!(ch.try_recv(), RecvOutcome::Closed));
}

#[test]
fn read_before_connect_is_connection_error() {
    let mut input = MemoryInput::new(MemoryInputConfig { messages: None }).unwrap();
    match input.read() {
        Err(Error::Connection(_)) => {}
        other => panic!("expected a connection error, got {:?}", other),
    }
}

#[test]
fn reads_drain_then_eof() {
    let mut input = MemoryInput::new(MemoryInputConfig {
        messages: Some(vec!["a".to_string(), "b".to_string()]),
    })
    .unwrap();
    input.connect().unwrap();
    let (first, ack) = input.read().unwrap();
    assert_eq!(first, MessageBatch::from_string("a".to_string()).unwrap());
    assert_eq!(ack, Ack::Noop);
    let (second, _) = input.read().unwrap();
    assert_eq!(second, MessageBatch::from_string("b".to_string()).unwrap());
    // Exhausted after the seeded reads: graceful EOF, not a failure.
    assert!(matches!(input.read(), Err(Error::EOF)));
}

#[test]
fn push_then_read() {
    let mut input = MemoryInput::new(MemoryInputConfig { messages: None }).unwrap();
    input.connect().unwrap();
    input.push(text_batch(3, &["x"])).unwrap();
    let (batch, _) = input.read().unwrap();
    assert_eq!(batch, text_batch(3, &["x"]));
}

#[test]
fn close_makes_reads_report_not_connected() {
    let mut input = MemoryInput::new(MemoryInputConfig {
        messages: Some(vec!["a".to_string()]),
    })
    .unwrap();
    input.connect().unwrap();
    input.close().unwrap();
    assert!(matches!(input.read(), Err(Error::Connection(_))));
}
