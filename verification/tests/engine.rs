use arkflow::ack::Ack;
use arkflow::ack::CompositeAck;
use arkflow::batch::MessageBatch;
use arkflow::buffer::MemoryBuffer;
use arkflow::buffer::MemoryBufferConfig;
use arkflow::buffer::TimerAction;
use arkflow::buffer::TimerEvent;
use arkflow::buffer::timer_step;
use arkflow::error::Error;
use arkflow::stream::BufferAction;
use arkflow::stream::BufferConfig;
use arkflow::stream::BufferEvent;
use arkflow::stream::InputAction;
use arkflow::stream::InputConfig;
use arkflow::stream::InputEvent;
use arkflow::stream::OutputConfig;
use arkflow::stream::PipelineConfig;
use arkflow::stream::ProcessorAction;
use arkflow::stream::ReconnectAction;
use arkflow::stream::StreamConfig;
use arkflow::stream::RECONNECT_BACKOFF_MS;
use arkflow::stream::input_step;
use arkflow::stream::buffer_step;
use arkflow::stream::output_step;
use arkflow::stream::processor_step;
use arkflow::stream::reconnect_attempts;
use arkflow::stream::reconnect_step;
use arkflow::input::MemoryInputConfig;

fn text_batch(schema: u64, records: &[&str]) -> MessageBatch {
    MessageBatch::new(schema, records.iter().map(|s| s.to_string()).collect())
}

#[test]
fn test_memory_buffer_new() {
    let mut p: MemoryBuffer<Ack> = MemoryBuffer::new(MemoryBufferConfig {
        capacity: 10,
        timeout_ms: 10_000,
    })
    .unwrap();

    let batch = MessageBatch::from_string("test".to_string()).unwrap();
    let wake = p.write(batch, Ack::Noop);
    // One row is far below the capacity of 10: no early wake.
    assert!(!wake);
}

#[test]
fn buffer_capacity_trigger() {
    // Capacity 3: the write whose cumulative row count first reaches it
    // wakes a pending reader at once, ahead of the idle timer.
    let mut b: MemoryBuffer<Ack> = MemoryBuffer::new(MemoryBufferConfig {
        capacity: 3,
        timeout_ms: 60_000,
    })
    .unwrap();
    assert!(!b.write(text_batch(1, &["r1", "r2"]), Ack::Token(1)));
    assert!(b.write(text_batch(1, &["r3"]), Ack::Token(2)));
}

#[test]
fn buffer_drain_merges_in_arrival_order() {
    let mut b: MemoryBuffer<Ack> = MemoryBuffer::new(MemoryBufferConfig {
        capacity: 100,
        timeout_ms: 60_000,
    })
    .unwrap();
    b.write(text_batch(1, &["a"]), Ack::Token(10));
    b.write(text_batch(1, &["b", "c"]), Ack::Token(20));
    let (merged, acks) = b.process_messages().unwrap().unwrap();
    assert_eq!(merged, text_batch(1, &["a", "b", "c"]));
    // The composite ack wraps every drained entry's ack, in arrival order.
    let composite = CompositeAck::new(acks);
    assert_eq!(composite.fire(), vec![10, 20]);
    // The queue was drained atomically: a further read yields no batch.
    assert!(matches!(b.process_messages(), Ok(None)));
}

#[test]
fn buffer_empty_read_yields_no_batch() {
    let mut b: MemoryBuffer<Ack> = MemoryBuffer::new(MemoryBufferConfig {
        capacity: 5,
        timeout_ms: 1_000,
    })
    .unwrap();
    assert!(matches!(b.process_messages(), Ok(None)));
}

#[test]
fn buffer_schema_mismatch_is_process_error() {
    let mut b: MemoryBuffer<Ack> = MemoryBuffer::new(MemoryBufferConfig {
        capacity: 100,
        timeout_ms: 60_000,
    })
    .unwrap();
    b.write(text_batch(1, &["a"]), Ack::Token(1));
    b.write(text_batch(2, &["b"]), Ack::Token(2));
    match b.process_messages() {
        Err(Error::Process(_)) => {}
        other => panic!("expected a processing error, got {:?}", other),
    }
}

#[test]
fn timer_cycle_notifies_and_only_close_exits() {
    // Idle expiry and external wakes notify the reader and restart the
    // timer; only the close signal ends the loop, after one final notify so
    // a blocked reader observes shutdown.
    assert!(matches!(timer_step(TimerEvent::Expired), TimerAction::NotifyAndRestart));
    assert!(matches!(timer_step(TimerEvent::Woken), TimerAction::NotifyAndRestart));
    assert!(matches!(timer_step(TimerEvent::Closed), TimerAction::NotifyAndExit));
}

#[test]
fn feeder_eof_exits_cleanly() {
    let action = input_step::<Ack>(false, InputEvent::Read(Err(Error::EOF)));
    assert!(matches!(action, InputAction::ExitEof));
}

#[test]
fn feeder_routes_batches_by_buffer_presence() {
    let batch = text_batch(1, &["a"]);
    match input_step(true, InputEvent::Read(Ok((batch.clone(), Ack::Token(1))))) {
        InputAction::WriteBuffer(b, Ack::Token(1)) => assert_eq!(b, batch),
        other => panic!("expected a buffer write, got a different action: {:?}", action_name(&other)),
    }
    match input_step(false, InputEvent::Read(Ok((batch.clone(), Ack::Token(1))))) {
        InputAction::Enqueue(b, Ack::Token(1)) => assert_eq!(b, batch),
        other => panic!("expected an enqueue, got a different action: {:?}", action_name(&other)),
    }
}

fn action_name(a: &InputAction<Ack>) -> &'static str {
    match a {
        InputAction::Exit => "Exit",
        InputAction::ExitEof => "ExitEof",
        InputAction::ExitFatal(_) => "ExitFatal",
        InputAction::WriteBuffer(_, _) => "WriteBuffer",
        InputAction::Enqueue(_, _) => "Enqueue",
        InputAction::Reconnect => "Reconnect",
        InputAction::SkipTransient(_) => "SkipTransient",
    }
}

#[test]
fn feeder_fatal_and_transient_errors() {
    assert!(matches!(
        input_step::<Ack>(false, InputEvent::Read(Err(Error::Config("bad".to_string())))),
        InputAction::ExitFatal(Error::Config(_))
    ));
    assert!(matches!(
        input_step::<Ack>(false, InputEvent::Read(Err(Error::Unknown("io".to_string())))),
        InputAction::SkipTransient(Error::Unknown(_))
    ));
    assert!(matches!(input_step::<Ack>(false, InputEvent::Cancelled), InputAction::Exit));
}

#[test]
fn disconnection_retries_with_backoff_then_resumes() {
    // A read reporting disconnection sends the feeder into the retry loop.
    assert!(matches!(
        input_step::<Ack>(false, InputEvent::Read(Err(Error::Disconnection))),
        InputAction::Reconnect
    ));
    // connect() fails once, succeeds on the second attempt: two connect
    // calls, with one fixed backoff delay between them.
    assert_eq!(reconnect_attempts(&vec![false, true]), Some(2));
    assert_eq!(
        reconnect_step(&Err(Error::Connection("down".to_string()))),
        ReconnectAction::Backoff(RECONNECT_BACKOFF_MS)
    );
    assert_eq!(RECONNECT_BACKOFF_MS, 5_000);
    assert_eq!(reconnect_step(&Ok(())), ReconnectAction::Resume);
}

#[test]
fn buffer_feeder_forwards_merged_batches() {
    let batch = text_batch(1, &["a"]);
    assert!(matches!(
        buffer_step(BufferEvent::Read(Ok(Some((batch, Ack::Noop))))),
        BufferAction::Enqueue(_, _)
    ));
    assert!(matches!(buffer_step::<Ack>(BufferEvent::Read(Ok(None))), BufferAction::Continue));
    // A failed read (a merge processing error) is carried out for logging
    // and the loop continues; cancellation exits and closes the buffer.
    assert!(matches!(
        buffer_step::<Ack>(BufferEvent::Read(Err(Error::Process("bad".to_string())))),
        BufferAction::SkipTransient(Error::Process(_))
    ));
    assert!(matches!(buffer_step::<Ack>(BufferEvent::Cancelled), BufferAction::ExitAndClose));
}

#[test]
fn pipeline_failure_fires_ack_immediately() {
    let action = processor_step(Err(Error::Process("bad".to_string())), Ack::Token(7));
    match action {
        ProcessorAction::FireAck(ack) => assert_eq!(ack.fire(), vec![7]),
        ProcessorAction::Forward(_, _) => panic!("a failed transform must not forward"),
    }
}

#[test]
fn pipeline_success_forwards_same_ack() {
    let out = vec![text_batch(1, &["x"]), text_batch(1, &["y"])];
    match processor_step(Ok(out.clone()), Ack::Token(9)) {
        ProcessorAction::Forward(msgs, ack) => {
            assert_eq!(msgs, out);
            assert_eq!(ack, Ack::Token(9));
        }
        ProcessorAction::FireAck(_) => panic!("a successful transform must forward"),
    }
}

#[test]
fn partial_sink_failure_withholds_group_ack() {
    // A group of 3 with exactly 1 failing write: the ack is withheld; the
    // two successful writes happened once each and are not rolled back.
    assert!(!output_step(&vec![true, false, true]));
}

#[test]
fn full_group_delivery_fires_group_ack() {
    assert!(output_step(&vec![true, true, true]));
    assert!(output_step(&vec![]));
}

#[test]
fn acked_exactly_once_through_engine() {
    // One batch read from the source, no buffer: enqueue, process, deliver.
    let batch = text_batch(1, &["a"]);
    let action = input_step(false, InputEvent::Read(Ok((batch, Ack::Token(42)))));
    let (msg, ack) = match action {
        InputAction::Enqueue(m, a) => (m, a),
        _ => panic!("expected an enqueue"),
    };
    let mut fired: Vec<u64> = Vec::new();
    match processor_step(Ok(vec![msg]), ack) {
        ProcessorAction::Forward(msgs, group_ack) => {
            let write_ok = vec![true; msgs.len()];
            if output_step(&write_ok) {
                fired.extend(group_ack.fire());
            }
        }
        ProcessorAction::FireAck(a) => fired.extend(a.fire()),
    }
    // Exactly one acknowledgment for the one batch read.
    assert_eq!(fired, vec![42]);
}

#[test]
fn config_build_defaults_to_one_worker() {
    let config = StreamConfig {
        input: InputConfig::Memory(MemoryInputConfig { messages: Some(vec!["a".to_string()]) }),
        pipeline: PipelineConfig { thread_num: None },
        output: OutputConfig { name: "drop".to_string() },
        buffer: None,
    };
    let stream = config.build().unwrap();
    assert_eq!(stream.worker_count(), 1);
    assert_eq!(stream.channel_capacity(), 4);
    assert!(stream.buffer.is_none());
}

#[test]
fn config_build_with_buffer_section() {
    let config = StreamConfig {
        input: InputConfig::Memory(MemoryInputConfig { messages: None }),
        pipeline: PipelineConfig { thread_num: Some(3) },
        output: OutputConfig { name: "drop".to_string() },
        buffer: Some(BufferConfig::Memory(MemoryBufferConfig { capacity: 10, timeout_ms: 500 })),
    };
    let stream = config.build().unwrap();
    assert_eq!(stream.worker_count(), 3);
    assert_eq!(stream.channel_capacity(), 12);
    assert!(stream.buffer.is_some());
}

#[test]
fn config_build_zero_workers_is_config_error() {
    let config = StreamConfig {
        input: InputConfig::Memory(MemoryInputConfig { messages: None }),
        pipeline: PipelineConfig { thread_num: Some(0) },
        output: OutputConfig { name: "drop".to_string() },
        buffer: None,
    };
    match config.build() {
        Err(Error::Config(_)) => {}
        other => panic!("expected a configuration error, got {:?}", other.map(|_| ())),
    }
}
