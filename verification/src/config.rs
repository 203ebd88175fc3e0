use vstd::prelude::*;

verus! {

/// Queue capacity of the logger when the configuration names none.
pub const DEFAULT_QUEUE_CAPACITY: usize = 10000;

/// Kafka batch size when the configuration names none.
pub const DEFAULT_KAFKA_BATCH_SIZE: usize = 100;

/// Kafka batch timeout, in milliseconds, when the configuration names none.
pub const DEFAULT_KAFKA_BATCH_TIMEOUT_MS: u64 = 1000;

/// Webhook retries after a failed first attempt when the configuration names none.
pub const DEFAULT_WEBHOOK_MAX_RETRIES: usize = 3;

/// Base of the webhook backoff, in milliseconds, when the configuration names none.
pub const DEFAULT_WEBHOOK_RETRY_DELAY_MS: u64 = 100;

/// Write buffer of the file sink, in bytes, when the configuration names none.
pub const DEFAULT_FILE_BUFFER_SIZE: usize = 8192;

/// Flush interval of the file sink, in milliseconds, when the configuration names none.
pub const DEFAULT_FILE_FLUSH_INTERVAL_MS: u64 = 1000;

/// Number of entries after which the file sink flushes, when the configuration names none.
pub const DEFAULT_FILE_FLUSH_THRESHOLD: usize = 100;

/// Kafka sink configuration, with its batching parameters.
pub struct KafkaSinkConfig {
    pub enabled: bool,
    pub bootstrap_servers: String,
    pub topic: String,
    /// Batch size, default 100.
    pub batch_size: Option<usize>,
    /// Batch timeout in milliseconds, default 1000.
    pub batch_timeout_ms: Option<u64>,
}

/// Webhook sink configuration, with its retry parameters.
pub struct WebhookSinkConfig {
    pub enabled: bool,
    pub url: String,
    /// Maximum number of retries after a failed first attempt, default 3.
    pub max_retries: Option<usize>,
    /// Base of the exponential backoff in milliseconds, default 100.
    pub retry_delay_ms: Option<u64>,
}

/// File sink configuration, with its buffering parameters.
pub struct FileSinkConfig {
    pub enabled: bool,
    pub path: String,
    /// Write buffer size in bytes, default 8192.
    pub buffer_size: Option<usize>,
    /// Flush interval in milliseconds, default 1000.
    pub flush_interval_ms: Option<u64>,
    /// Number of entries before a flush, default 100.
    pub flush_threshold: Option<usize>,
}

/// The configuration of all sinks.
pub struct SinkConfig {
    pub kafka: KafkaSinkConfig,
    pub webhook: WebhookSinkConfig,
    pub file: FileSinkConfig,
}

/// Logger configuration.
pub struct LoggerConfig {
    pub queue_capacity: Option<usize>,
}

/// `value` when it is present, else `default`.
pub open spec fn or_default<T>(value: Option<T>, default: T) -> T {
    match value {
        Some(v) => v,
        None => default,
    }
}

impl LoggerConfig {
    /// The queue capacity that the logger is built with.
    pub open spec fn spec_queue_capacity(self) -> usize {
        or_default(self.queue_capacity, DEFAULT_QUEUE_CAPACITY)
    }

    /// The configured queue capacity, or 10000 when none is configured.
    pub fn resolved_queue_capacity(&self) -> (cap: usize)
        ensures
            cap == self.spec_queue_capacity(),
    {
        match self.queue_capacity {
            Some(c) => c,
            None => DEFAULT_QUEUE_CAPACITY,
        }
    }
}

} // verus!
