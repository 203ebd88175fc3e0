use observability::{
    backpressure_result, first_step, utilization_high, Backpressure, LogEntry, LogError, LogStep,
    Logger, LoggerConfig, SerializableLevel, TrySend, BACKPRESSURE_TIMEOUT_MS,
};

fn entry(message: &str) -> LogEntry {
    LogEntry::from_message(SerializableLevel::Info, message, "test")
}

#[test]
fn queue_capacity_defaults_to_ten_thousand() {
    let (logger, _rx) = Logger::new(&LoggerConfig { queue_capacity: None });
    assert_eq!(logger.queue_capacity(), 10000);
}

#[test]
fn queue_capacity_follows_configuration() {
    let (logger, _rx) = Logger::new(&LoggerConfig { queue_capacity: Some(7) });
    assert_eq!(logger.queue_capacity(), 7);
}

#[test]
fn queued_entry_reaches_the_receiver() {
    let (logger, mut rx) = Logger::new(&LoggerConfig { queue_capacity: Some(2) });
    let step = logger.try_log(entry("hello"));
    assert!(matches!(step, LogStep::Queued));
    let got = rx.try_recv().expect("an entry is queued");
    assert_eq!(got.message, "hello");
    assert_eq!(got.source, "test");
    assert_eq!(got.level, SerializableLevel::Info);
}

#[test]
fn full_queue_hands_the_same_entry_back() {
    let (logger, _rx) = Logger::new(&LoggerConfig { queue_capacity: Some(1) });
    assert!(matches!(logger.try_log(entry("first")), LogStep::Queued));
    match logger.try_log(entry("second")) {
        LogStep::WaitForRoom(e) => assert_eq!(e.message, "second"),
        _ => panic!("expected the queue to be full"),
    }
}

#[test]
fn closed_queue_fails_with_send_failed() {
    let (logger, rx) = Logger::new(&LoggerConfig { queue_capacity: Some(1) });
    drop(rx);
    match logger.try_log(entry("lost")) {
        LogStep::Failed(err) => assert_eq!(err, LogError::SendFailed("Logger channel closed")),
        _ => panic!("expected a failure"),
    }
}

#[test]
fn utilization_warning_reads_slots_in_use() {
    let (logger, _rx) = Logger::new(&LoggerConfig { queue_capacity: Some(10) });
    let (used, high) = logger.queue_utilization_high();
    assert_eq!(used, 0);
    assert!(!high);
    for i in 0..8 {
        assert!(matches!(logger.try_log(entry(&format!("e{}", i))), LogStep::Queued));
    }
    let (used, high) = logger.queue_utilization_high();
    assert_eq!(used, 8);
    assert!(!high); // exactly 80 % is not above it
    assert!(matches!(logger.try_log(entry("e8")), LogStep::Queued));
    let (used, high) = logger.queue_utilization_high();
    assert_eq!(used, 9);
    assert!(high);
}

#[test]
fn utilization_threshold_is_strictly_above_four_fifths() {
    assert!(!utilization_high(4, 5));
    assert!(utilization_high(5, 5));
    assert!(utilization_high(81, 100));
    assert!(!utilization_high(80, 100));
    assert!(!utilization_high(0, 0));
    assert!(utilization_high(1, 0));
    assert!(utilization_high(usize::MAX, usize::MAX));
}

#[test]
fn first_step_decisions() {
    assert!(matches!(first_step(TrySend::Sent), LogStep::Queued));
    match first_step(TrySend::Full(entry("x"))) {
        LogStep::WaitForRoom(e) => assert_eq!(e.message, "x"),
        _ => panic!("expected a wait"),
    }
    match first_step(TrySend::Closed(entry("x"))) {
        LogStep::Failed(err) => assert_eq!(err, LogError::SendFailed("Logger channel closed")),
        _ => panic!("expected a failure"),
    }
}

#[test]
fn backpressure_outcomes() {
    assert_eq!(backpressure_result(Backpressure::Sent), Ok(()));
    assert_eq!(
        backpressure_result(Backpressure::Closed),
        Err(LogError::SendFailed("Channel closed"))
    );
    assert_eq!(
        backpressure_result(Backpressure::TimedOut),
        Err(LogError::Timeout("Queue backpressure timeout"))
    );
    assert_eq!(BACKPRESSURE_TIMEOUT_MS, 500);
}

#[test]
fn error_messages() {
    assert_eq!(
        LogError::SendFailed("Channel closed").message(),
        "Failed to send log: Channel closed"
    );
    assert_eq!(
        LogError::Timeout("Queue backpressure timeout").message(),
        "Operation timed out: Queue backpressure timeout"
    );
}

#[test]
fn shutdown_succeeds() {
    let (logger, _rx) = Logger::new(&LoggerConfig { queue_capacity: None });
    assert_eq!(logger.shutdown(), Ok(()));
}

#[test]
fn shutdown_closes_the_queue() {
    let (logger, mut rx) = Logger::new(&LoggerConfig { queue_capacity: Some(3) });
    assert!(matches!(logger.try_log(entry("last")), LogStep::Queued));
    assert_eq!(logger.shutdown(), Ok(()));
    assert_eq!(rx.try_recv().unwrap().message, "last");
    assert!(rx.try_recv().is_err());
}

#[test]
fn new_entry_keeps_every_field() {
    let e = LogEntry::new(
        SerializableLevel::Warn,
        "m".to_string(),
        "s".to_string(),
        Some("req-1".to_string()),
        Some("user-2".to_string()),
        vec![("k".to_string(), "v".to_string())],
    );
    assert_eq!(e.level, SerializableLevel::Warn);
    assert_eq!(e.message, "m");
    assert_eq!(e.source, "s");
    assert_eq!(e.request_id.as_deref(), Some("req-1"));
    assert_eq!(e.user_id.as_deref(), Some("user-2"));
    assert_eq!(e.fields, vec![("k".to_string(), "v".to_string())]);
    assert!(e.timestamp > 1_600_000_000_000);
}

#[test]
fn entry_from_message_has_no_context() {
    let e = LogEntry::from_message(SerializableLevel::Trace, "msg", "src");
    assert_eq!(e.level, SerializableLevel::Trace);
    assert_eq!(e.message, "msg");
    assert_eq!(e.source, "src");
    assert!(e.request_id.is_none());
    assert!(e.user_id.is_none());
    assert!(e.fields.is_empty());
}
