use observability::{
    delivered, plan_sinks, Delivery, FileSink, FileSinkConfig, KafkaSink, KafkaSinkConfig, LogEntry,
    SerializableLevel, SinkChoice, SinkConfig, WebhookSink, WebhookSinkConfig, DEFAULT_LOG_PATH,
};

fn entry(message: &str) -> LogEntry {
    LogEntry::from_message(SerializableLevel::Info, message, "sink")
}

fn messages(batch: &[LogEntry]) -> Vec<String> {
    batch.iter().map(|e| e.message.clone()).collect()
}

#[test]
fn kafka_flushes_when_the_batch_is_full() {
    let mut sink = KafkaSink::new("logs".to_string(), 3, 1000, 0);
    assert!(sink.write(entry("a"), 10).is_none());
    assert!(sink.write(entry("b"), 20).is_none());
    let batch = sink.write(entry("c"), 30).expect("third entry fills the batch");
    assert_eq!(messages(&batch), vec!["a", "b", "c"]);
    assert!(sink.write(entry("d"), 40).is_none());
}

#[test]
fn kafka_flushes_when_the_timeout_has_passed() {
    let mut sink = KafkaSink::new("logs".to_string(), 100, 1000, 5000);
    assert!(sink.write(entry("a"), 5999).is_none());
    let batch = sink.write(entry("b"), 6000).expect("timeout reached");
    assert_eq!(messages(&batch), vec!["a", "b"]);
    // the flush is recorded at 6000
    assert_eq!(sink.last_flush(), 6000);
    assert!(sink.write(entry("c"), 6001).is_none());
    assert!(sink.write(entry("d"), 6999).is_none());
    assert_eq!(messages(&sink.write(entry("e"), 7000).unwrap()), vec!["c", "d", "e"]);
}

#[test]
fn kafka_size_flush_records_the_time() {
    let mut sink = KafkaSink::new("logs".to_string(), 2, 1000, 0);
    assert!(sink.write(entry("a"), 10).is_none());
    assert_eq!(sink.last_flush(), 0);
    assert!(sink.write(entry("b"), 500).is_some());
    assert_eq!(sink.last_flush(), 500);
    assert_eq!(sink.pending_len(), 0);
}

#[test]
fn kafka_batch_size_zero_sends_every_entry() {
    let mut sink = KafkaSink::new("logs".to_string(), 0, 1000, 0);
    let batch = sink.write(entry("only"), 0).unwrap();
    assert_eq!(messages(&batch), vec!["only"]);
}

#[test]
fn kafka_periodic_flush_only_sends_stale_non_empty_batches() {
    let mut sink = KafkaSink::new("logs".to_string(), 100, 1000, 0);
    assert!(sink.flush_if_stale(5000).is_none()); // nothing pending
    assert!(sink.write(entry("a"), 10).is_none());
    assert!(sink.flush_if_stale(999).is_none()); // not stale yet
    let batch = sink.flush_if_stale(1000).unwrap();
    assert_eq!(messages(&batch), vec!["a"]);
    assert!(sink.write(entry("b"), 1500).is_none()); // last flush is now 1000
    assert!(sink.flush_if_stale(1999).is_none());
    assert_eq!(messages(&sink.flush_if_stale(2000).unwrap()), vec!["b"]);
}

#[test]
fn kafka_batches_keep_every_entry_in_order() {
    let mut sink = KafkaSink::new("logs".to_string(), 4, 1_000_000, 0);
    let mut sent: Vec<String> = Vec::new();
    for i in 0..11u64 {
        let now = if i <= 5 { i } else { 2_000_000 + i };
        if let Some(batch) = sink.write(entry(&format!("m{}", i)), now) {
            sent.extend(messages(&batch));
        }
        if i == 5 {
            let batch = sink.flush_if_stale(2_000_000).expect("stale batch");
            assert_eq!(messages(&batch), vec!["m4", "m5"]);
            sent.extend(messages(&batch));
        }
    }
    let rest = sink.flush_if_stale(4_000_000).expect("one entry still waits");
    sent.extend(messages(&rest));
    let expected: Vec<String> = (0..11).map(|i| format!("m{}", i)).collect();
    assert_eq!(sent, expected);
    assert!(sink.flush_if_stale(9_000_000).is_none());
}

#[test]
fn kafka_timeout_getter_setter_and_interval() {
    let mut sink = KafkaSink::new("t".to_string(), 10, 1000, 0);
    assert_eq!(sink.batch_timeout(), 1000);
    assert_eq!(sink.check_interval_ms(), 500);
    sink.set_batch_timeout(3001);
    assert_eq!(sink.batch_timeout(), 3001);
    assert_eq!(sink.check_interval_ms(), 1500);
    assert_eq!(sink.topic(), "t");
    assert_eq!(sink.batch_size(), 10);
}

#[test]
fn webhook_backoff_doubles() {
    let sink = WebhookSink::new("http://localhost/hook".to_string(), 3, 100);
    assert_eq!(sink.url(), "http://localhost/hook");
    assert_eq!(sink.after_attempt(0, None), Delivery::Retry { failed: 1, pause_ms: 200 });
    assert_eq!(sink.after_attempt(1, Some(500)), Delivery::Retry { failed: 2, pause_ms: 400 });
    assert_eq!(sink.after_attempt(2, Some(404)), Delivery::Retry { failed: 3, pause_ms: 800 });
    assert_eq!(sink.after_attempt(3, None), Delivery::GaveUp);
}

#[test]
fn webhook_success_status_ends_the_delivery() {
    let sink = WebhookSink::new("u".to_string(), 3, 100);
    assert_eq!(sink.after_attempt(0, Some(200)), Delivery::Delivered);
    assert_eq!(sink.after_attempt(2, Some(204)), Delivery::Delivered);
    assert_eq!(sink.after_attempt(3, Some(299)), Delivery::Delivered);
    assert_eq!(sink.after_attempt(0, Some(300)), Delivery::Retry { failed: 1, pause_ms: 200 });
    assert_eq!(sink.after_attempt(0, Some(199)), Delivery::Retry { failed: 1, pause_ms: 200 });
}

#[test]
fn webhook_without_retries_posts_once() {
    let sink = WebhookSink::new("u".to_string(), 0, 100);
    assert_eq!(sink.after_attempt(0, None), Delivery::GaveUp);
    assert_eq!(sink.after_attempt(0, Some(201)), Delivery::Delivered);
}

#[test]
fn webhook_failing_delivery_retries_max_retries_times() {
    let sink = WebhookSink::new("u".to_string(), 3, 100);
    let mut failed = 0;
    let mut attempts = 0;
    let mut pauses = Vec::new();
    loop {
        attempts += 1;
        assert!(sink.backoff_in_range(failed));
        match sink.after_attempt(failed, Some(503)) {
            Delivery::Retry { failed: next, pause_ms } => {
                failed = next;
                pauses.push(pause_ms);
            }
            Delivery::GaveUp => break,
            Delivery::Delivered => panic!("no attempt succeeds"),
        }
    }
    assert_eq!(attempts, 4);
    assert_eq!(pauses, vec![200, 400, 800]);
}

#[test]
fn file_sink_flushes_on_threshold_or_interval() {
    let mut sink = FileSink::new("app.log".to_string(), 8192, 1000, 2, 10_000);
    assert_eq!(sink.path(), "app.log");
    assert!(!sink.should_flush(10_500));
    sink.record_write();
    assert_eq!(sink.entry_count(), 1);
    assert!(!sink.should_flush(10_999));
    assert!(sink.should_flush(11_000));
    sink.record_write();
    assert!(sink.should_flush(10_001));
    sink.record_flush(10_002);
    assert_eq!(sink.entry_count(), 0);
    assert!(!sink.should_flush(10_003));
}

#[test]
fn file_sink_buffer_size_change() {
    let mut sink = FileSink::new("a".to_string(), 8192, 1000, 100, 0);
    assert_eq!(sink.buffer_size(), 8192);
    assert!(!sink.set_buffer_size(8192));
    assert!(sink.set_buffer_size(4096));
    assert_eq!(sink.buffer_size(), 4096);
}

fn config(kafka: bool, webhook: bool, file: bool) -> SinkConfig {
    SinkConfig {
        kafka: KafkaSinkConfig {
            enabled: kafka,
            bootstrap_servers: "localhost:9092".to_string(),
            topic: "logs".to_string(),
            batch_size: None,
            batch_timeout_ms: None,
        },
        webhook: WebhookSinkConfig {
            enabled: webhook,
            url: "http://localhost:3000/logs".to_string(),
            max_retries: None,
            retry_delay_ms: None,
        },
        file: FileSinkConfig {
            enabled: file,
            path: "/tmp/app.log".to_string(),
            buffer_size: None,
            flush_interval_ms: None,
            flush_threshold: None,
        },
    }
}

fn kafka_of(choice: &SinkChoice) -> &observability::KafkaPlan {
    match choice {
        SinkChoice::Kafka(k) => k,
        _ => panic!("expected the Kafka sink"),
    }
}

fn webhook_of(choice: &SinkChoice) -> &WebhookSink {
    match choice {
        SinkChoice::Webhook(w) => w,
        _ => panic!("expected the webhook sink"),
    }
}

fn file_of(choice: &SinkChoice) -> &observability::FilePlan {
    match choice {
        SinkChoice::File(f) => f,
        _ => panic!("expected the file sink"),
    }
}

#[test]
fn plan_uses_defaults() {
    let plan = plan_sinks(&config(true, true, true));
    assert_eq!(plan.len(), 3);
    let kafka = kafka_of(&plan[0]);
    assert_eq!(kafka.bootstrap_servers, "localhost:9092");
    assert_eq!(kafka.topic, "logs");
    assert_eq!(kafka.batch_size, 100);
    assert_eq!(kafka.batch_timeout_ms, 1000);
    let webhook = webhook_of(&plan[1]);
    assert_eq!(webhook.url(), "http://localhost:3000/logs");
    assert_eq!(webhook.max_retries(), 3);
    assert_eq!(webhook.retry_delay_ms(), 100);
    let file = file_of(&plan[2]);
    assert_eq!(file.path, "/tmp/app.log");
    assert_eq!(file.buffer_size, 8192);
    assert_eq!(file.flush_interval_ms, 1000);
    assert_eq!(file.flush_threshold, 100);
}

#[test]
fn plan_uses_configured_values() {
    let mut c = config(true, true, true);
    c.kafka.batch_size = Some(7);
    c.kafka.batch_timeout_ms = Some(70);
    c.webhook.max_retries = Some(5);
    c.webhook.retry_delay_ms = Some(9);
    c.file.buffer_size = Some(1);
    c.file.flush_interval_ms = Some(2);
    c.file.flush_threshold = Some(3);
    let plan = plan_sinks(&c);
    let kafka = kafka_of(&plan[0]);
    assert_eq!((kafka.batch_size, kafka.batch_timeout_ms), (7, 70));
    let webhook = webhook_of(&plan[1]);
    assert_eq!((webhook.max_retries(), webhook.retry_delay_ms()), (5, 9));
    let file = file_of(&plan[2]);
    assert_eq!((file.buffer_size, file.flush_interval_ms, file.flush_threshold), (1, 2, 3));
}

#[test]
fn plan_keeps_the_order_kafka_webhook_file() {
    let plan = plan_sinks(&config(false, true, true));
    assert_eq!(plan.len(), 2);
    webhook_of(&plan[0]);
    file_of(&plan[1]);
    let plan = plan_sinks(&config(true, false, true));
    assert_eq!(plan.len(), 2);
    kafka_of(&plan[0]);
    file_of(&plan[1]);
}

#[test]
fn plan_falls_back_to_default_log_file() {
    let plan = plan_sinks(&config(false, false, false));
    assert_eq!(plan.len(), 1);
    assert_eq!(file_of(&plan[0]).path, "default.log");
    assert_eq!(DEFAULT_LOG_PATH, "default.log");
}

#[test]
fn webhook_backoff_overflow_is_detected() {
    let sink = WebhookSink::new("u".to_string(), 100, 1);
    assert!(sink.backoff_in_range(0));
    assert!(sink.backoff_in_range(62)); // 2^63 fits
    assert!(!sink.backoff_in_range(63)); // 64 failed attempts: the shift overflows
    let big = WebhookSink::new("u".to_string(), 2, u64::MAX / 2);
    assert!(big.backoff_in_range(0)); // (MAX / 2) * 2 fits
    assert!(!big.backoff_in_range(1)); // (MAX / 2) * 4 does not
    assert!(big.backoff_in_range(2)); // no further retry, no pause
}

#[test]
fn only_a_success_status_delivers() {
    assert!(delivered(Some(200)));
    assert!(delivered(Some(299)));
    assert!(!delivered(Some(300)));
    assert!(!delivered(Some(199)));
    assert!(!delivered(None));
}
