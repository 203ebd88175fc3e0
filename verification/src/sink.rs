use vstd::prelude::*;
use vstd::arithmetic::power2::pow2;

use crate::config::{
    or_default, FileSinkConfig, KafkaSinkConfig, SinkConfig, WebhookSinkConfig,
    DEFAULT_FILE_BUFFER_SIZE, DEFAULT_FILE_FLUSH_INTERVAL_MS,
    DEFAULT_FILE_FLUSH_THRESHOLD, DEFAULT_KAFKA_BATCH_SIZE, DEFAULT_KAFKA_BATCH_TIMEOUT_MS,
    DEFAULT_WEBHOOK_MAX_RETRIES, DEFAULT_WEBHOOK_RETRY_DELAY_MS,
};
use crate::entry::LogEntry;

verus! {

/// Value of the `message.timeout.ms` setting of the Kafka producer.
pub const KAFKA_MESSAGE_TIMEOUT_MS: u64 = 5000;

/// How long, in seconds, the sending of one Kafka record may wait in the producer's queue.
pub const KAFKA_SEND_TIMEOUT_SECS: u64 = 5;

/// Timeout, in seconds, of the HTTP client of the webhook sink.
pub const WEBHOOK_HTTP_TIMEOUT_SECS: u64 = 10;

/// Path of the file sink when the file sink is not enabled in the configuration.
pub const DEFAULT_LOG_PATH: &'static str = "default.log";

// ---------------------------------------------------------------------------
// Kafka: batching
// ---------------------------------------------------------------------------

/// Whether a Kafka batch is due: it holds `batch_size` entries or more, or
/// `timeout` milliseconds or more have passed since the last flush.
pub open spec fn kafka_flush_due(len: int, batch_size: int, elapsed: int, timeout: int) -> bool {
    len >= batch_size || elapsed >= timeout
}

/// The batching state of a Kafka sink: the topic it sends to, the entries
/// that wait for the next batch and the time of the last flush.
pub struct KafkaSink {
    topic: String,
    batch_size: usize,
    batch_timeout_ms: u64,
    entries: Vec<LogEntry>,
    last_flush: u64,
}

impl KafkaSink {
    /// Entries that wait for the next batch, oldest first.
    pub closed spec fn pending(&self) -> Seq<LogEntry> {
        self.entries@
    }

    /// Time of the last flush, in milliseconds since the Unix epoch.
    pub closed spec fn spec_last_flush(&self) -> u64 {
        self.last_flush
    }

    pub closed spec fn spec_batch_size(&self) -> usize {
        self.batch_size
    }

    pub closed spec fn spec_batch_timeout(&self) -> u64 {
        self.batch_timeout_ms
    }

    pub closed spec fn spec_topic(&self) -> Seq<char> {
        self.topic@
    }

    /// A batch never holds `batch_size` entries between two calls (when
    /// `batch_size` is not 0).
    pub open spec fn within_batch_size(&self) -> bool {
        self.spec_batch_size() > 0 ==> self.pending().len() < self.spec_batch_size()
    }

    /// An empty batch for `topic`, last flushed at `now_ms`.
    pub fn new(topic: String, batch_size: usize, batch_timeout_ms: u64, now_ms: u64) -> (sink: KafkaSink)
        ensures
            sink.spec_topic() == topic@,
            sink.spec_batch_size() == batch_size,
            sink.spec_batch_timeout() == batch_timeout_ms,
            sink.spec_last_flush() == now_ms,
            sink.pending() == Seq::<LogEntry>::empty(),
            sink.within_batch_size(),
    {
        KafkaSink {
            topic,
            batch_size,
            batch_timeout_ms,
            entries: Vec::with_capacity(batch_size),
            last_flush: now_ms,
        }
    }

    /// The topic that batches are sent to.
    pub fn topic(&self) -> (t: &String)
        ensures
            t@ == self.spec_topic(),
    {
        &self.topic
    }

    pub fn batch_size(&self) -> (n: usize)
        ensures
            n == self.spec_batch_size(),
    {
        self.batch_size
    }

    /// Time of the last flush, in milliseconds since the Unix epoch.
    pub fn last_flush(&self) -> (ms: u64)
        ensures
            ms == self.spec_last_flush(),
    {
        self.last_flush
    }

    /// Number of entries that wait for the next batch.
    pub fn pending_len(&self) -> (n: usize)
        ensures
            n == self.pending().len(),
    {
        self.entries.len()
    }

    /// The batch timeout in milliseconds.
    pub fn batch_timeout(&self) -> (ms: u64)
        ensures
            ms == self.spec_batch_timeout(),
    {
        self.batch_timeout_ms
    }

    /// Changes the batch timeout; nothing else changes.
    pub fn set_batch_timeout(&mut self, new_timeout_ms: u64)
        ensures
            final(self).spec_batch_timeout() == new_timeout_ms,
            final(self).spec_batch_size() == old(self).spec_batch_size(),
            final(self).spec_topic() == old(self).spec_topic(),
            final(self).spec_last_flush() == old(self).spec_last_flush(),
            final(self).pending() == old(self).pending(),
    {
        self.batch_timeout_ms = new_timeout_ms;
    }

    /// How long the periodic flusher sleeps between two checks: half the
    /// batch timeout.
    pub fn check_interval_ms(&self) -> (ms: u64)
        ensures
            ms == self.spec_batch_timeout() / 2,
    {
        self.batch_timeout_ms / 2
    }

    /// Takes every pending entry out, oldest first.
    fn take_pending(&mut self) -> (batch: Vec<LogEntry>)
        ensures
            batch@ == old(self).pending(),
            final(self).pending() == Seq::<LogEntry>::empty(),
            final(self).spec_topic() == old(self).spec_topic(),
            final(self).spec_batch_size() == old(self).spec_batch_size(),
            final(self).spec_batch_timeout() == old(self).spec_batch_timeout(),
            final(self).spec_last_flush() == old(self).spec_last_flush(),
    {
        let mut batch: Vec<LogEntry> = Vec::new();
        std::mem::swap(&mut batch, &mut self.entries);
        batch
    }

    /// Adds `entry` to the batch at time `now_ms`. When the batch then holds
    /// `batch_size` entries or more, or the batch timeout has passed since
    /// the last flush, the whole batch comes out, oldest first, to be sent,
    /// and the flush is recorded at `now_ms`; otherwise the time of the last
    /// flush stays.
    pub fn write(&mut self, entry: LogEntry, now_ms: u64) -> (batch: Option<Vec<LogEntry>>)
        requires
            old(self).spec_last_flush() <= now_ms,
        ensures
            ({
                let all = old(self).pending().push(entry);
                if kafka_flush_due(
                    all.len() as int,
                    old(self).spec_batch_size() as int,
                    now_ms - old(self).spec_last_flush(),
                    old(self).spec_batch_timeout() as int,
                ) {
                    &&& batch matches Some(b) && b@ == all
                    &&& final(self).pending() == Seq::<LogEntry>::empty()
                    &&& final(self).spec_last_flush() == now_ms
                } else {
                    &&& batch is None
                    &&& final(self).pending() == all
                    &&& final(self).spec_last_flush() == old(self).spec_last_flush()
                }
            }),
            same_settings(*old(self), *final(self)),
            final(self).within_batch_size(),
    {
        self.entries.push(entry);
        let by_size = self.entries.len() >= self.batch_size;
        let by_time = now_ms - self.last_flush >= self.batch_timeout_ms;
        if by_size || by_time {
            let batch = self.take_pending();
            self.last_flush = now_ms;
            Some(batch)
        } else {
            None
        }
    }

    /// The periodic check at time `now_ms`: when the batch timeout has
    /// passed since the last flush and entries are pending, all of them come
    /// out, oldest first, and the flush is recorded at `now_ms`; otherwise
    /// nothing changes.
    pub fn flush_if_stale(&mut self, now_ms: u64) -> (batch: Option<Vec<LogEntry>>)
        requires
            old(self).spec_last_flush() <= now_ms,
        ensures
            if now_ms - old(self).spec_last_flush() >= old(self).spec_batch_timeout()
                && old(self).pending().len() > 0 {
                &&& batch matches Some(b) && b@ == old(self).pending()
                &&& final(self).pending() == Seq::<LogEntry>::empty()
                &&& final(self).spec_last_flush() == now_ms
            } else {
                &&& batch is None
                &&& final(self).pending() == old(self).pending()
                &&& final(self).spec_last_flush() == old(self).spec_last_flush()
            },
            same_settings(*old(self), *final(self)),
            old(self).within_batch_size() ==> final(self).within_batch_size(),
    {
        if now_ms - self.last_flush >= self.batch_timeout_ms && self.entries.len() > 0 {
            let batch = self.take_pending();
            self.last_flush = now_ms;
            Some(batch)
        } else {
            None
        }
    }
}

/// Two states of a Kafka sink have the same topic, batch size and batch
/// timeout.
pub open spec fn same_settings(a: KafkaSink, b: KafkaSink) -> bool {
    &&& a.spec_topic() == b.spec_topic()
    &&& a.spec_batch_size() == b.spec_batch_size()
    &&& a.spec_batch_timeout() == b.spec_batch_timeout()
}

/// Only `set_batch_timeout` changes a Kafka sink's settings. Take a run of
/// calls on one sink, each a `write` or a `flush_if_stale`, which leave its
/// topic, batch size and batch timeout as they were (their contracts state
/// `same_settings` of the states before and after). Then the sink ends the
/// run with the settings it started with: in particular, `batch_timeout`
/// still returns the timeout it was created with.
pub proof fn lemma_settings_kept_over_a_run(states: Seq<KafkaSink>)
    requires
        states.len() > 0,
        forall|i: int| 0 <= i < states.len() - 1 ==> #[trigger] same_settings(states[i], states[i + 1]),
    ensures
        same_settings(states[0], states.last()),
    decreases states.len(),
{
    if states.len() > 1 {
        let pre = states.drop_last();
        assert forall|i: int| 0 <= i < pre.len() - 1 implies #[trigger] same_settings(pre[i], pre[i + 1]) by {
            assert(same_settings(states[i], states[i + 1]));
        }
        lemma_settings_kept_over_a_run(pre);
        let k = states.len() - 2;
        assert(same_settings(states[k], states[k + 1]));
        assert(pre.last() == states[k]);
    }
}

/// `parts` joined end to end, first to last.
pub open spec fn concat_all(parts: Seq<Seq<LogEntry>>) -> Seq<LogEntry>
    decreases parts.len(),
{
    if parts.len() == 0 {
        Seq::empty()
    } else {
        concat_all(parts.drop_last()) + parts.last()
    }
}

/// No entry is lost, repeated or reordered by batching. Take a run of calls
/// on one Kafka sink, where the `i`-th call found `pending[i]` waiting,
/// brought `incoming[i]` (the entry of a `write`, nothing for
/// `flush_if_stale`), sent `sent[i]` (nothing when no batch came out) and
/// left `pending[i + 1]`, as the contracts of those calls state. Then the
/// batches sent, followed by what still waits, are exactly what waited at
/// the start followed by every entry brought in, in order.
pub proof fn lemma_batching_keeps_every_entry_in_order(
    pending: Seq<Seq<LogEntry>>,
    incoming: Seq<Seq<LogEntry>>,
    sent: Seq<Seq<LogEntry>>,
)
    requires
        incoming.len() == sent.len(),
        pending.len() == incoming.len() + 1,
        forall|i: int|
            0 <= i < incoming.len() ==> #[trigger] pending[i] + incoming[i] == sent[i] + pending[i + 1],
    ensures
        pending[0] + concat_all(incoming) == concat_all(sent) + pending[incoming.len() as int],
    decreases incoming.len(),
{
    let n = incoming.len() as int;
    if n == 0 {
        assert(pending[0] + concat_all(incoming) =~= pending[0]);
        assert(concat_all(sent) + pending[0] =~= pending[0]);
    } else {
        let pre = pending.drop_last();
        lemma_batching_keeps_every_entry_in_order(pre, incoming.drop_last(), sent.drop_last());
        assert(pre[n - 1] == pending[n - 1]);
        assert(pending[n - 1] + incoming[n - 1] == sent[n - 1] + pending[n]);
        let a = pending[0];
        let ci = concat_all(incoming.drop_last());
        let cs = concat_all(sent.drop_last());
        assert(a + ci == cs + pending[n - 1]);
        assert(a + concat_all(incoming) =~= (a + ci) + incoming[n - 1]);
        assert(concat_all(sent) + pending[n] =~= cs + (sent[n - 1] + pending[n]));
        assert((cs + pending[n - 1]) + incoming[n - 1] =~= cs + (pending[n - 1] + incoming[n - 1]));
    }
}

// ---------------------------------------------------------------------------
// Webhook: retries with exponential backoff
// ---------------------------------------------------------------------------

/// The pause, in milliseconds, before the attempt that follows `failed`
/// failed attempts: `delay * 2^failed`.
pub open spec fn backoff_ms(delay: int, failed: nat) -> int {
    delay * pow2(failed)
}

/// The pause after the `failed`-th failed attempt, `delay * (1 << failed)`
/// on `u64`, can be computed without overflow. It is only computed when a
/// retry follows, that is when at most `max_retries` attempts have failed.
pub open spec fn backoff_fits(delay: u64, failed: int, max_retries: int) -> bool {
    failed <= max_retries ==> (0 <= failed < 64 && backoff_ms(delay as int, failed as nat) <= u64::MAX)
}

/// Whether an HTTP status code is a success: 200 to 299, as
/// `StatusCode::is_success` of the `http` crate defines it.
pub open spec fn is_success_status(status: u16) -> bool {
    200 <= status < 300
}

/// Whether an attempt that got `status` (`None` when no answer came)
/// delivered the entry.
pub open spec fn spec_delivered(status: Option<u16>) -> bool {
    status matches Some(code) && is_success_status(code)
}

/// Whether an attempt that got `status` (`None` when no answer came)
/// delivered the entry: the server answered with a success status.
pub fn delivered(status: Option<u16>) -> (ok: bool)
    ensures
        ok == spec_delivered(status),
        ok <==> (status matches Some(code) && 200 <= code && code < 300),
{
    match status {
        Some(code) => 200 <= code && code < 300,
        None => false,
    }
}

/// What a webhook sink does after one attempt to post an entry.
#[derive(Debug, PartialEq, Eq, Structural)]
pub enum Delivery {
    /// The server answered with a success status: the delivery is over.
    Delivered,
    /// `failed` attempts have failed; pause `pause_ms` milliseconds, then try again.
    Retry { failed: usize, pause_ms: u64 },
    /// The first attempt and all `max_retries` retries have failed.
    GaveUp,
}

/// The step that follows an attempt made after `failed` failed ones, whose
/// answer was `status` (`None` when no answer came): a success status ends
/// the delivery; otherwise a retry follows, after a pause of
/// `delay * 2^(failed + 1)`, as long as fewer than `max_retries` retries have
/// been made; otherwise the sink gives up.
pub open spec fn spec_after_attempt(delay: u64, max_retries: usize, failed: usize, status: Option<u16>) -> Delivery {
    if spec_delivered(status) {
        Delivery::Delivered
    } else if failed < max_retries {
        Delivery::Retry {
            failed: (failed + 1) as usize,
            pause_ms: backoff_ms(delay as int, (failed + 1) as nat) as u64,
        }
    } else {
        Delivery::GaveUp
    }
}

/// The retry policy of a webhook sink: where entries are posted, how many
/// times a failed post is retried and the base of the backoff between
/// attempts.
pub struct WebhookSink {
    url: String,
    max_retries: usize,
    retry_delay_ms: u64,
}

impl WebhookSink {
    pub closed spec fn spec_url(&self) -> Seq<char> {
        self.url@
    }

    pub closed spec fn spec_max_retries(&self) -> usize {
        self.max_retries
    }

    pub closed spec fn spec_retry_delay(&self) -> u64 {
        self.retry_delay_ms
    }

    pub fn new(url: String, max_retries: usize, retry_delay_ms: u64) -> (sink: WebhookSink)
        ensures
            sink.spec_url() == url@,
            sink.spec_max_retries() == max_retries,
            sink.spec_retry_delay() == retry_delay_ms,
    {
        WebhookSink { url, max_retries, retry_delay_ms }
    }

    /// The URL that entries are posted to.
    pub fn url(&self) -> (u: &String)
        ensures
            u@ == self.spec_url(),
    {
        &self.url
    }

    /// The number of retries after a failed first attempt.
    pub fn max_retries(&self) -> (n: usize)
        ensures
            n == self.spec_max_retries(),
    {
        self.max_retries
    }

    /// The base of the backoff, in milliseconds.
    pub fn retry_delay_ms(&self) -> (ms: u64)
        ensures
            ms == self.spec_retry_delay(),
    {
        self.retry_delay_ms
    }

    /// Whether the pause after one more failure, once `failed` attempts have
    /// failed, can be computed without overflow: the condition under which
    /// `after_attempt` may be told of a failure.
    pub fn backoff_in_range(&self, failed: usize) -> (ok: bool)
        requires
            failed <= self.spec_max_retries(),
        ensures
            ok == backoff_fits(self.spec_retry_delay(), failed + 1, self.spec_max_retries() as int),
    {
        if failed >= self.max_retries {
            return true;
        }
        let next = failed + 1;
        if next >= 64 {
            return false;
        }
        let shift = next as u64;
        proof {
            vstd::bits::lemma_u64_pow2_no_overflow(shift as nat);
            vstd::bits::lemma_u64_shl_is_mul(1, shift);
        }
        let factor: u64 = 1u64 << shift;
        self.retry_delay_ms.checked_mul(factor).is_some()
    }

    /// Decides what follows an attempt made after `failed` failed ones,
    /// from the status code of the answer (`None` when no answer came).
    /// The first attempt is made with `failed == 0`.
    pub fn after_attempt(&self, failed: usize, status: Option<u16>) -> (next: Delivery)
        requires
            failed <= self.spec_max_retries(),
            !spec_delivered(status) ==> backoff_fits(
                self.spec_retry_delay(),
                failed + 1,
                self.spec_max_retries() as int,
            ),
        ensures
            next == spec_after_attempt(self.spec_retry_delay(), self.spec_max_retries(), failed, status),
            (status matches Some(code) && 200 <= code && code < 300) ==> next == Delivery::Delivered,
            !(status matches Some(code) && 200 <= code && code < 300) && failed < self.spec_max_retries()
                ==> (next matches Delivery::Retry { failed: f, pause_ms: p } && f == failed + 1
                    && p == self.spec_retry_delay() * pow2((failed + 1) as nat)),
            !(status matches Some(code) && 200 <= code && code < 300) && failed == self.spec_max_retries()
                ==> next == Delivery::GaveUp,
    {
        if delivered(status) {
            Delivery::Delivered
        } else if failed < self.max_retries {
            let next = failed + 1;
            let shift = next as u64;
            proof {
                vstd::bits::lemma_u64_pow2_no_overflow(shift as nat);
                vstd::bits::lemma_u64_shl_is_mul(1, shift);
            }
            let factor: u64 = 1u64 << shift;
            Delivery::Retry { failed: next, pause_ms: self.retry_delay_ms * factor }
        } else {
            Delivery::GaveUp
        }
    }
}

/// An attempt is a success exactly when the server answered with a status
/// from 200 to 299; no answer, or any other status, is a failure.
pub proof fn lemma_delivered_exactly_on_2xx(status: Option<u16>)
    ensures
        spec_delivered(status) <==> (status matches Some(code) && 200 <= code && code < 300),
        spec_delivered(status) ==> forall|delay: u64, max_retries: usize, failed: usize|
            #[trigger] spec_after_attempt(delay, max_retries, failed, status) == Delivery::Delivered,
{
}

/// What follows a failed attempt, made after `failed` failed ones: while
/// fewer than `max_retries` retries have been made, a retry after a pause of
/// `delay * 2^(failed + 1)` milliseconds; after the `max_retries`-th retry
/// has failed too, giving up. A success status always ends the delivery.
pub proof fn lemma_after_attempt_retries_then_gives_up(
    delay: u64,
    max_retries: usize,
    failed: usize,
    status: Option<u16>,
)
    requires
        failed <= max_retries,
        !(status matches Some(code) && 200 <= code && code < 300),
        backoff_fits(delay, failed + 1, max_retries as int),
    ensures
        failed < max_retries ==> (spec_after_attempt(delay, max_retries, failed, status) matches
            Delivery::Retry { failed: f, pause_ms: p } && f == failed + 1 && p == delay * pow2(
            (failed + 1) as nat,
        )),
        failed == max_retries ==> spec_after_attempt(delay, max_retries, failed, status)
            == Delivery::GaveUp,
{
}

/// A delivery in which every attempt fails makes `max_retries + 1` attempts.
/// Take the steps that `after_attempt` gave for the attempts of one
/// delivery, the `i`-th made after `i` failed ones, none answered with a
/// success status, every one but the last followed by a retry and the last
/// by giving up. Then there were exactly `max_retries + 1` attempts, and the
/// pause before the `k`-th retry was `delay * 2^k`.
pub proof fn lemma_failed_delivery_makes_max_retries_plus_one_attempts(
    delay: u64,
    max_retries: usize,
    statuses: Seq<Option<u16>>,
    steps: Seq<Delivery>,
)
    requires
        steps.len() >= 1,
        statuses.len() == steps.len(),
        forall|i: int| 0 <= i < steps.len() ==> !(#[trigger] statuses[i] matches Some(code) && 200 <= code && code < 300),
        forall|i: int|
            0 <= i < steps.len() ==> #[trigger] steps[i] == spec_after_attempt(delay, max_retries, i as usize, statuses[i]),
        forall|i: int| 0 <= i < steps.len() - 1 ==> #[trigger] steps[i] is Retry,
        steps.last() is GaveUp,
        forall|n: int| 1 <= n <= max_retries ==> #[trigger] backoff_fits(delay, n, max_retries as int),
    ensures
        steps.len() == max_retries + 1,
        forall|i: int|
            0 <= i < steps.len() - 1 ==> (#[trigger] steps[i] matches Delivery::Retry { failed: f, pause_ms: p }
                && f == i + 1 && p == delay * pow2((i + 1) as nat)),
{
    let n = steps.len() - 1;
    if n > max_retries {
        let m = max_retries as int;
        assert(steps[m] == spec_after_attempt(delay, max_retries, m as usize, statuses[m]));
        assert(!spec_delivered(statuses[m]));
        assert(steps[m] is Retry);
    }
    assert(steps[n] == spec_after_attempt(delay, max_retries, n as usize, statuses[n]));
    assert(!spec_delivered(statuses[n]));
    assert forall|i: int| 0 <= i < steps.len() - 1 implies (#[trigger] steps[i] matches Delivery::Retry {
        failed: f,
        pause_ms: p,
    } && f == i + 1 && p == delay * pow2((i + 1) as nat)) by {
        assert(steps[i] == spec_after_attempt(delay, max_retries, i as usize, statuses[i]));
        assert(!spec_delivered(statuses[i]));
        assert(steps[i] is Retry);
        assert(i < max_retries);
        assert(backoff_fits(delay, i + 1, max_retries as int));
    }
}

/// A delivery in which every attempt fails, from the attempt made after
/// `failed` failed ones, one `after_attempt` step after the other. The first
/// component counts the attempts made, the second lists the pauses in order.
pub open spec fn failing_delivery(delay: int, max_retries: int, failed: int) -> (nat, Seq<int>)
    decreases max_retries - failed,
{
    if failed < 0 || failed > max_retries {
        (0, Seq::empty())
    } else if failed == max_retries {
        (1, Seq::empty())
    } else {
        let rest = failing_delivery(delay, max_retries, failed + 1);
        ((rest.0 + 1) as nat, seq![backoff_ms(delay, (failed + 1) as nat)] + rest.1)
    }
}

/// When every attempt fails, a webhook sink posts once and then retries
/// exactly `max_retries` times, `max_retries + 1` attempts in all, pausing
/// `retry_delay_ms * 2^k` before the `k`-th retry, for `k` from 1 to
/// `max_retries`.
pub proof fn lemma_failing_delivery_schedule(delay: int, max_retries: int)
    requires
        max_retries >= 0,
    ensures
        failing_delivery(delay, max_retries, 0).0 == max_retries + 1,
        failing_delivery(delay, max_retries, 0).1 == Seq::new(
            max_retries as nat,
            |k: int| backoff_ms(delay, (k + 1) as nat),
        ),
{
    lemma_failing_delivery_from(delay, max_retries, 0);
}

proof fn lemma_failing_delivery_from(delay: int, max_retries: int, failed: int)
    requires
        0 <= failed <= max_retries,
    ensures
        failing_delivery(delay, max_retries, failed).0 == max_retries - failed + 1,
        failing_delivery(delay, max_retries, failed).1 == Seq::new(
            (max_retries - failed) as nat,
            |k: int| backoff_ms(delay, (failed + k + 1) as nat),
        ),
    decreases max_retries - failed,
{
    let expected = Seq::new(
        (max_retries - failed) as nat,
        |k: int| backoff_ms(delay, (failed + k + 1) as nat),
    );
    if failed < max_retries {
        lemma_failing_delivery_from(delay, max_retries, failed + 1);
    }
    assert(failing_delivery(delay, max_retries, failed).1 =~= expected);
}

// ---------------------------------------------------------------------------
// File: flushing policy
// ---------------------------------------------------------------------------

/// The buffering state of a file sink: the file it appends to, the size of
/// its write buffer and when it flushes.
pub struct FileSink {
    path: String,
    buffer_size: usize,
    entry_count: usize,
    last_flush: u64,
    flush_interval_ms: u64,
    flush_threshold: usize,
}

impl FileSink {
    pub closed spec fn spec_path(&self) -> Seq<char> {
        self.path@
    }

    pub closed spec fn spec_buffer_size(&self) -> usize {
        self.buffer_size
    }

    /// Entries written since the last flush (wrapping at `usize::MAX`, as
    /// an atomic counter does).
    pub closed spec fn spec_entry_count(&self) -> usize {
        self.entry_count
    }

    pub closed spec fn spec_last_flush(&self) -> u64 {
        self.last_flush
    }

    pub closed spec fn spec_flush_interval(&self) -> u64 {
        self.flush_interval_ms
    }

    pub closed spec fn spec_flush_threshold(&self) -> usize {
        self.flush_threshold
    }

    /// A sink that has written nothing yet, last flushed at `now_ms`.
    pub fn new(
        path: String,
        buffer_size: usize,
        flush_interval_ms: u64,
        flush_threshold: usize,
        now_ms: u64,
    ) -> (sink: FileSink)
        ensures
            sink.spec_path() == path@,
            sink.spec_buffer_size() == buffer_size,
            sink.spec_flush_interval() == flush_interval_ms,
            sink.spec_flush_threshold() == flush_threshold,
            sink.spec_entry_count() == 0,
            sink.spec_last_flush() == now_ms,
    {
        FileSink {
            path,
            buffer_size,
            entry_count: 0,
            last_flush: now_ms,
            flush_interval_ms,
            flush_threshold,
        }
    }

    /// The path of the file.
    pub fn path(&self) -> (p: &String)
        ensures
            p@ == self.spec_path(),
    {
        &self.path
    }

    /// The size of the write buffer, in bytes.
    pub fn buffer_size(&self) -> (n: usize)
        ensures
            n == self.spec_buffer_size(),
    {
        self.buffer_size
    }

    pub fn entry_count(&self) -> (n: usize)
        ensures
            n == self.spec_entry_count(),
    {
        self.entry_count
    }

    /// Time of the last flush, in milliseconds since the Unix epoch.
    pub fn last_flush(&self) -> (ms: u64)
        ensures
            ms == self.spec_last_flush(),
    {
        self.last_flush
    }

    pub fn flush_interval_ms(&self) -> (ms: u64)
        ensures
            ms == self.spec_flush_interval(),
    {
        self.flush_interval_ms
    }

    pub fn flush_threshold(&self) -> (n: usize)
        ensures
            n == self.spec_flush_threshold(),
    {
        self.flush_threshold
    }

    /// Changes the size of the write buffer. Returns whether it changed, in
    /// which case the writer is to be created anew with the new size.
    pub fn set_buffer_size(&mut self, new_size: usize) -> (reopen: bool)
        ensures
            reopen == (old(self).spec_buffer_size() != new_size),
            final(self).spec_buffer_size() == new_size,
            final(self).spec_path() == old(self).spec_path(),
            final(self).spec_entry_count() == old(self).spec_entry_count(),
            final(self).spec_last_flush() == old(self).spec_last_flush(),
            final(self).spec_flush_interval() == old(self).spec_flush_interval(),
            final(self).spec_flush_threshold() == old(self).spec_flush_threshold(),
    {
        if self.buffer_size != new_size {
            self.buffer_size = new_size;
            true
        } else {
            false
        }
    }

    /// Whether to flush at `now_ms`: when `flush_threshold` entries or more
    /// were written since the last flush, or `flush_interval_ms` or more have
    /// passed since it. The time is only looked at when the count is below
    /// the threshold.
    pub fn should_flush(&self, now_ms: u64) -> (flush: bool)
        requires
            self.spec_entry_count() >= self.spec_flush_threshold()
                || self.spec_last_flush() <= now_ms,
        ensures
            flush == (self.spec_entry_count() >= self.spec_flush_threshold() || now_ms
                - self.spec_last_flush() >= self.spec_flush_interval()),
    {
        if self.entry_count >= self.flush_threshold {
            return true;
        }
        now_ms - self.last_flush >= self.flush_interval_ms
    }

    /// Counts one more entry written (wrapping at `usize::MAX`).
    pub fn record_write(&mut self)
        ensures
            final(self).spec_entry_count() == (if old(self).spec_entry_count() == usize::MAX {
                0
            } else {
                old(self).spec_entry_count() + 1
            }),
            final(self).spec_path() == old(self).spec_path(),
            final(self).spec_buffer_size() == old(self).spec_buffer_size(),
            final(self).spec_last_flush() == old(self).spec_last_flush(),
            final(self).spec_flush_interval() == old(self).spec_flush_interval(),
            final(self).spec_flush_threshold() == old(self).spec_flush_threshold(),
    {
        if self.entry_count == usize::MAX {
            self.entry_count = 0;
        } else {
            self.entry_count = self.entry_count + 1;
        }
    }

    /// Records a flush at `now_ms`: the count starts again from 0.
    pub fn record_flush(&mut self, now_ms: u64)
        ensures
            final(self).spec_entry_count() == 0,
            final(self).spec_last_flush() == now_ms,
            final(self).spec_path() == old(self).spec_path(),
            final(self).spec_buffer_size() == old(self).spec_buffer_size(),
            final(self).spec_flush_interval() == old(self).spec_flush_interval(),
            final(self).spec_flush_threshold() == old(self).spec_flush_threshold(),
    {
        self.entry_count = 0;
        self.last_flush = now_ms;
    }
}

// ---------------------------------------------------------------------------
// Which sinks to create
// ---------------------------------------------------------------------------

/// The parameters of the Kafka sink to create.
pub struct KafkaPlan {
    pub bootstrap_servers: String,
    pub topic: String,
    pub batch_size: usize,
    pub batch_timeout_ms: u64,
}

/// The parameters of the file sink to create.
pub struct FilePlan {
    pub path: String,
    pub buffer_size: usize,
    pub flush_interval_ms: u64,
    pub flush_threshold: usize,
}

/// One sink to create.
pub enum SinkChoice {
    Kafka(KafkaPlan),
    Webhook(WebhookSink),
    File(FilePlan),
}

/// The Kafka sink to create for `config`, the defaults filled in.
pub open spec fn kafka_planned(plan: KafkaPlan, config: KafkaSinkConfig) -> bool {
    &&& plan.bootstrap_servers@ == config.bootstrap_servers@
    &&& plan.topic@ == config.topic@
    &&& plan.batch_size == or_default(config.batch_size, DEFAULT_KAFKA_BATCH_SIZE)
    &&& plan.batch_timeout_ms == or_default(config.batch_timeout_ms, DEFAULT_KAFKA_BATCH_TIMEOUT_MS)
}

/// The webhook sink to create for `config`, the defaults filled in.
pub open spec fn webhook_planned(sink: WebhookSink, config: WebhookSinkConfig) -> bool {
    &&& sink.spec_url() == config.url@
    &&& sink.spec_max_retries() == or_default(config.max_retries, DEFAULT_WEBHOOK_MAX_RETRIES)
    &&& sink.spec_retry_delay() == or_default(config.retry_delay_ms, DEFAULT_WEBHOOK_RETRY_DELAY_MS)
}

/// The file sink to create for `config`: on the configured path when the
/// file sink is enabled and on "default.log" otherwise, the defaults filled in.
pub open spec fn file_planned(plan: FilePlan, config: FileSinkConfig) -> bool {
    &&& plan.path@ == (if config.enabled { config.path@ } else { DEFAULT_LOG_PATH@ })
    &&& plan.buffer_size == or_default(config.buffer_size, DEFAULT_FILE_BUFFER_SIZE)
    &&& plan.flush_interval_ms == or_default(config.flush_interval_ms, DEFAULT_FILE_FLUSH_INTERVAL_MS)
    &&& plan.flush_threshold == or_default(config.flush_threshold, DEFAULT_FILE_FLUSH_THRESHOLD)
}

/// Decides which sinks to create from the configuration, in the order in
/// which entries reach them, with the defaults of every parameter that it
/// leaves out: first a Kafka sink when enabled (batches of 100, every
/// 1000 ms), then a webhook sink when enabled (3 retries, backoff base
/// 100 ms), and last, always, a file sink, on the configured path when it is
/// enabled and on "default.log" otherwise (buffer 8192 bytes, flush every
/// 1000 ms or 100 entries).
pub fn plan_sinks(config: &SinkConfig) -> (plan: Vec<SinkChoice>)
    ensures
        ({
            let k: int = if config.kafka.enabled { 1 } else { 0 };
            let w: int = if config.webhook.enabled { 1 } else { 0 };
            &&& plan@.len() == k + w + 1
            &&& config.kafka.enabled ==> (plan@[0] matches SinkChoice::Kafka(p) && kafka_planned(p, config.kafka))
            &&& config.webhook.enabled ==> (plan@[k] matches SinkChoice::Webhook(s) && webhook_planned(s, config.webhook))
            &&& plan@[k + w] matches SinkChoice::File(f) && file_planned(f, config.file)
        }),
{
    let mut plan: Vec<SinkChoice> = Vec::new();
    if config.kafka.enabled {
        plan.push(
            SinkChoice::Kafka(
                KafkaPlan {
                    bootstrap_servers: config.kafka.bootstrap_servers.clone(),
                    topic: config.kafka.topic.clone(),
                    batch_size: config.kafka.batch_size.unwrap_or(DEFAULT_KAFKA_BATCH_SIZE),
                    batch_timeout_ms: config.kafka.batch_timeout_ms.unwrap_or(
                        DEFAULT_KAFKA_BATCH_TIMEOUT_MS,
                    ),
                },
            ),
        );
    }
    if config.webhook.enabled {
        plan.push(
            SinkChoice::Webhook(
                WebhookSink::new(
                    config.webhook.url.clone(),
                    config.webhook.max_retries.unwrap_or(DEFAULT_WEBHOOK_MAX_RETRIES),
                    config.webhook.retry_delay_ms.unwrap_or(DEFAULT_WEBHOOK_RETRY_DELAY_MS),
                ),
            ),
        );
    }
    let path = if config.file.enabled {
        config.file.path.clone()
    } else {
        DEFAULT_LOG_PATH.to_owned()
    };
    plan.push(
        SinkChoice::File(
            FilePlan {
                path,
                buffer_size: config.file.buffer_size.unwrap_or(DEFAULT_FILE_BUFFER_SIZE),
                flush_interval_ms: config.file.flush_interval_ms.unwrap_or(
                    DEFAULT_FILE_FLUSH_INTERVAL_MS,
                ),
                flush_threshold: config.file.flush_threshold.unwrap_or(DEFAULT_FILE_FLUSH_THRESHOLD),
            },
        ),
    );
    plan
}

} // verus!
