use vstd::prelude::*;

verus! {

/// The exporters (for traces) or readers (for metrics) to install.
#[derive(Clone, Copy, Debug, PartialEq, Eq, Structural)]
pub struct ExporterPlan {
    /// Export over OTLP/gRPC to the configured endpoint.
    pub otlp: bool,
    /// Print to standard output.
    pub stdout: bool,
}

/// The layers of the tracing subscriber to install.
#[derive(Clone, Copy, Debug, PartialEq, Eq, Structural)]
pub struct LayerPlan {
    /// Whether the formatting layer writes ANSI colours.
    pub fmt_ansi: bool,
    /// A second formatting layer with default settings.
    pub second_fmt: bool,
    /// The OpenTelemetry layer that turns spans into traces.
    pub traces: bool,
    /// The layer that turns events into metrics.
    pub metrics: bool,
    /// The bridge that sends events to the OpenTelemetry logger.
    pub logs_bridge: bool,
}

/// Notices printed while telemetry is set up.
#[derive(Clone, Copy, Debug, PartialEq, Eq, Structural)]
pub enum Notice {
    TracerWithStdout,
    MeterWithStdout,
    MeterDisabled,
    LogsMeterTracer,
}

impl Notice {
    pub open spec fn spec_text(self) -> Seq<char> {
        match self {
            Notice::TracerWithStdout => "Tracer enabled with stdout"@,
            Notice::MeterWithStdout => "Meter enabled with stdout"@,
            Notice::MeterDisabled => "Meter disabled"@,
            Notice::LogsMeterTracer => "Logs and meter,tracer enabled"@,
        }
    }

    /// The text printed for the notice.
    pub fn text(&self) -> (t: &'static str)
        ensures
            t@ == self.spec_text(),
    {
        match self {
            Notice::TracerWithStdout => "Tracer enabled with stdout",
            Notice::MeterWithStdout => "Meter enabled with stdout",
            Notice::MeterDisabled => "Meter disabled",
            Notice::LogsMeterTracer => "Logs and meter,tracer enabled",
        }
    }
}

/// Span exporters: OTLP (batched) when the tracer is enabled, stdout
/// (unbatched) when stdout is in use; the notice when both are.
pub open spec fn spec_tracer_exporters(tracer_enabled: bool, use_stdout: bool) -> (ExporterPlan, Option<Notice>) {
    (
        ExporterPlan { otlp: tracer_enabled, stdout: use_stdout },
        if tracer_enabled && use_stdout { Some(Notice::TracerWithStdout) } else { None },
    )
}

/// Metric readers: OTLP when metrics are enabled, stdout when stdout is in
/// use; a notice when both are, and another when neither is.
pub open spec fn spec_meter_readers(meter_enabled: bool, use_stdout: bool) -> (ExporterPlan, Option<Notice>) {
    (
        ExporterPlan { otlp: meter_enabled, stdout: use_stdout },
        if meter_enabled && use_stdout {
            Some(Notice::MeterWithStdout)
        } else if !meter_enabled && !use_stdout {
            Some(Notice::MeterDisabled)
        } else {
            None
        },
    )
}

/// Subscriber layers: with logs and metrics both enabled, a plain
/// formatting layer, traces, metrics and the logs bridge; with logs only, a
/// plain formatting layer and traces; with metrics only, a plain formatting
/// layer and metrics; with neither, a coloured formatting layer and a
/// second default one.
pub open spec fn spec_subscriber_layers(logs_enabled: bool, meter_enabled: bool) -> (LayerPlan, Option<Notice>) {
    if logs_enabled && meter_enabled {
        (
            LayerPlan { fmt_ansi: false, second_fmt: false, traces: true, metrics: true, logs_bridge: true },
            Some(Notice::LogsMeterTracer),
        )
    } else if logs_enabled {
        (
            LayerPlan { fmt_ansi: false, second_fmt: false, traces: true, metrics: false, logs_bridge: false },
            None,
        )
    } else if meter_enabled {
        (
            LayerPlan { fmt_ansi: false, second_fmt: false, traces: false, metrics: true, logs_bridge: false },
            None,
        )
    } else {
        (
            LayerPlan { fmt_ansi: true, second_fmt: true, traces: false, metrics: false, logs_bridge: false },
            None,
        )
    }
}

/// Which span exporters the tracer provider gets.
pub fn tracer_exporters(tracer_enabled: bool, use_stdout: bool) -> (r: (ExporterPlan, Option<Notice>))
    ensures
        r == spec_tracer_exporters(tracer_enabled, use_stdout),
{
    if tracer_enabled && use_stdout {
        (ExporterPlan { otlp: true, stdout: true }, Some(Notice::TracerWithStdout))
    } else if tracer_enabled {
        (ExporterPlan { otlp: true, stdout: false }, None)
    } else if use_stdout {
        (ExporterPlan { otlp: false, stdout: true }, None)
    } else {
        (ExporterPlan { otlp: false, stdout: false }, None)
    }
}

/// Which metric readers the meter provider gets.
pub fn meter_readers(meter_enabled: bool, use_stdout: bool) -> (r: (ExporterPlan, Option<Notice>))
    ensures
        r == spec_meter_readers(meter_enabled, use_stdout),
{
    if meter_enabled && use_stdout {
        (ExporterPlan { otlp: true, stdout: true }, Some(Notice::MeterWithStdout))
    } else if meter_enabled {
        (ExporterPlan { otlp: true, stdout: false }, None)
    } else if use_stdout {
        (ExporterPlan { otlp: false, stdout: true }, None)
    } else {
        (ExporterPlan { otlp: false, stdout: false }, Some(Notice::MeterDisabled))
    }
}

/// Which layers the tracing subscriber gets.
pub fn subscriber_layers(logs_enabled: bool, meter_enabled: bool) -> (r: (LayerPlan, Option<Notice>))
    ensures
        r == spec_subscriber_layers(logs_enabled, meter_enabled),
{
    if logs_enabled && meter_enabled {
        (
            LayerPlan { fmt_ansi: false, second_fmt: false, traces: true, metrics: true, logs_bridge: true },
            Some(Notice::LogsMeterTracer),
        )
    } else if logs_enabled {
        (
            LayerPlan { fmt_ansi: false, second_fmt: false, traces: true, metrics: false, logs_bridge: false },
            None,
        )
    } else if meter_enabled {
        (
            LayerPlan { fmt_ansi: false, second_fmt: false, traces: false, metrics: true, logs_bridge: false },
            None,
        )
    } else {
        (
            LayerPlan { fmt_ansi: true, second_fmt: true, traces: false, metrics: false, logs_bridge: false },
            None,
        )
    }
}

} // verus!
