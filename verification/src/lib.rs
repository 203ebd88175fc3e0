//! Observability: a logger that queues structured log entries and hands
//! them to Kafka, webhook and file sinks, with OpenTelemetry wiring.
//!
//! This crate holds the decisions of the library, each with a contract:
//! configuration defaults, the sink plan, the batching, retry and flush
//! policies of the sinks, the queueing of the logger and the choice of
//! exporters and layers for telemetry.
mod config;
mod entry;
mod logger;
mod sink;
mod telemetry;

pub use config::{
    or_default, FileSinkConfig, KafkaSinkConfig, LoggerConfig, SinkConfig, WebhookSinkConfig,
    DEFAULT_FILE_BUFFER_SIZE, DEFAULT_FILE_FLUSH_INTERVAL_MS, DEFAULT_FILE_FLUSH_THRESHOLD,
    DEFAULT_KAFKA_BATCH_SIZE, DEFAULT_KAFKA_BATCH_TIMEOUT_MS, DEFAULT_QUEUE_CAPACITY,
    DEFAULT_WEBHOOK_MAX_RETRIES, DEFAULT_WEBHOOK_RETRY_DELAY_MS,
};
pub use entry::{LogEntry, SerializableLevel};
pub use logger::{
    backpressure_result, channel_bound, first_step, lemma_log_result, utilization_high, Backpressure, LogError,
    LogStep, Logger, TrySend, BACKPRESSURE_TIMEOUT_MS, MAX_QUEUE_CAPACITY,
};
pub use sink::{
    backoff_fits, backoff_ms, concat_all, delivered, failing_delivery, spec_delivered, is_success_status, kafka_flush_due,
    lemma_batching_keeps_every_entry_in_order, lemma_failing_delivery_schedule,
    lemma_settings_kept_over_a_run, lemma_delivered_exactly_on_2xx,
    lemma_after_attempt_retries_then_gives_up, lemma_failed_delivery_makes_max_retries_plus_one_attempts, plan_sinks, same_settings, spec_after_attempt, Delivery,
    FilePlan, FileSink, KafkaPlan, KafkaSink, SinkChoice, WebhookSink,
    file_planned, kafka_planned, webhook_planned, DEFAULT_LOG_PATH,
    KAFKA_MESSAGE_TIMEOUT_MS, KAFKA_SEND_TIMEOUT_SECS, WEBHOOK_HTTP_TIMEOUT_SECS,
};
pub use telemetry::{
    meter_readers, subscriber_layers, tracer_exporters, ExporterPlan, LayerPlan, Notice,
};
