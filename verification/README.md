# observability

A logger that queues structured log entries and hands them to Kafka,
webhook and file sinks, with OpenTelemetry traces, metrics and logs.

- `src/` is the library, verified with Verus: configuration defaults
  (`config.rs`), log entries (`entry.rs`), the logger's queue and the
  outcome of a log call (`logger.rs`), the batching, retry and flushing
  policies of the sinks and the choice of sinks (`sink.rs`), and the choice
  of exporters and subscriber layers (`telemetry.rs`).
- `app/` performs what the library decides: it loads the configuration,
  runs the asynchronous logging calls, the worker and the sinks' I/O, and
  sets up OpenTelemetry.
- `tests/` exercises the library on concrete values.
