use vstd::prelude::*;
use tokio::sync::mpsc::error::TrySendError;
use tokio::sync::mpsc::{Receiver, Sender};

use crate::config::LoggerConfig;
use crate::entry::LogEntry;

verus! {

/// The largest queue capacity that a bounded tokio channel accepts
/// (`Semaphore::MAX_PERMITS`, that is `usize::MAX >> 3`).
pub const MAX_QUEUE_CAPACITY: usize = usize::MAX / 8;

/// How long, in milliseconds, a log call waits for room in a full queue.
pub const BACKPRESSURE_TIMEOUT_MS: u64 = 500;

#[verifier::external_type_specification]
#[verifier::external_body]
#[verifier::reject_recursive_types(T)]
pub struct ExSender<T>(Sender<T>);

#[verifier::external_type_specification]
#[verifier::external_body]
#[verifier::reject_recursive_types(T)]
pub struct ExReceiver<T>(Receiver<T>);

/// Errors of the logger.
#[derive(Debug, PartialEq, Eq)]
pub enum LogError {
    /// The entry could not be handed to the queue.
    SendFailed(&'static str),
    /// The queue stayed full for longer than the backpressure timeout.
    Timeout(&'static str),
}

impl LogError {
    /// The text of the error, as `Display` shows it.
    pub open spec fn spec_message(self) -> Seq<char> {
        match self {
            LogError::SendFailed(reason) => "Failed to send log: "@ + reason@,
            LogError::Timeout(reason) => "Operation timed out: "@ + reason@,
        }
    }

    /// The text of the error: "Failed to send log: " or "Operation timed
    /// out: " followed by its reason.
    pub fn message(&self) -> (text: String)
        ensures
            text@ == self.spec_message(),
    {
        match self {
            LogError::SendFailed(reason) => {
                let mut text = "Failed to send log: ".to_owned();
                text.append(reason);
                text
            },
            LogError::Timeout(reason) => {
                let mut text = "Operation timed out: ".to_owned();
                text.append(reason);
                text
            },
        }
    }
}

/// What one non-blocking attempt to queue an entry came to.
pub enum TrySend {
    /// The entry is in the queue.
    Sent,
    /// The queue is full; the entry is handed back.
    Full(LogEntry),
    /// The receiving side is gone; the entry is handed back.
    Closed(LogEntry),
}

/// The bound of the queue that a sender belongs to: the capacity it was
/// created with, which `Sender::max_capacity` reports and which never
/// changes.
pub uninterp spec fn channel_bound(sender: Sender<LogEntry>) -> usize;

/// Creates the bounded queue between the logger and its worker.
///
/// Calls `tokio::sync::mpsc::channel`, which panics on a capacity of 0 or
/// above `MAX_QUEUE_CAPACITY`; `requires` leaves those out. The sender's
/// queue is bounded by the capacity asked for (the source keeps it as the
/// semaphore's `bound`, which `max_capacity` returns); nothing else is
/// claimed of the two ends.
#[verifier::external_body]
fn bounded_channel(capacity: usize) -> (ends: (Sender<LogEntry>, Receiver<LogEntry>))
    requires
        0 < capacity <= MAX_QUEUE_CAPACITY,
    ensures
        channel_bound(ends.0) == capacity,
{
    tokio::sync::mpsc::channel(capacity)
}

/// Tries to queue `entry` without waiting.
///
/// Calls `Sender::try_send`. Whether the queue has room or its receiver is
/// gone depends on the other threads, so which variant comes back is not
/// claimed; the source shows that an entry that was not sent is handed back
/// unchanged, and that is what `ensures` states.
#[verifier::external_body]
fn try_send(sender: &Sender<LogEntry>, entry: LogEntry) -> (outcome: TrySend)
    ensures
        outcome matches TrySend::Full(e) ==> e == entry,
        outcome matches TrySend::Closed(e) ==> e == entry,
{
    match sender.try_send(entry) {
        Ok(()) => TrySend::Sent,
        Err(TrySendError::Full(e)) => TrySend::Full(e),
        Err(TrySendError::Closed(e)) => TrySend::Closed(e),
    }
}

/// Number of free slots in the queue.
///
/// Calls `Sender::capacity`. The value depends on what the other threads
/// have sent and received, so only its bound is claimed: the free slots are
/// the semaphore's available permits, one taken per message sent and given
/// back per message received, so never more than the queue's bound.
#[verifier::external_body]
fn free_slots(sender: &Sender<LogEntry>) -> (n: usize)
    ensures
        n <= channel_bound(*sender),
{
    sender.capacity()
}

/// Whether a queue with `used` of its `capacity` slots taken is more than
/// 80 % full.
pub open spec fn spec_utilization_high(used: int, capacity: int) -> bool {
    used * 5 > capacity * 4
}

/// Whether the share `used / capacity` of the queue in use is above 0.8,
/// computed exactly on integers (a share of 4/5 is not above it).
pub fn utilization_high(used: usize, capacity: usize) -> (high: bool)
    ensures
        high == spec_utilization_high(used as int, capacity as int),
{
    (used as u128) * 5 > (capacity as u128) * 4
}

/// The next step of a log call after the first attempt to queue its entry.
pub enum LogStep {
    /// The entry is queued: the call succeeds.
    Queued,
    /// The queue is full: wait up to `BACKPRESSURE_TIMEOUT_MS` to send this entry.
    WaitForRoom(LogEntry),
    /// The call fails with this error.
    Failed(LogError),
}

/// How the wait for room in a full queue ended.
pub enum Backpressure {
    /// The entry was sent within the timeout.
    Sent,
    /// The receiving side went away while waiting.
    Closed,
    /// The timeout elapsed.
    TimedOut,
}

/// The step that follows a first attempt to queue an entry.
pub open spec fn spec_first_step(outcome: TrySend) -> LogStep {
    match outcome {
        TrySend::Sent => LogStep::Queued,
        TrySend::Full(e) => LogStep::WaitForRoom(e),
        TrySend::Closed(_) => LogStep::Failed(LogError::SendFailed("Logger channel closed")),
    }
}

/// What a log call returns once its wait for room has ended.
pub open spec fn spec_backpressure_result(outcome: Backpressure) -> Result<(), LogError> {
    match outcome {
        Backpressure::Sent => Ok(()),
        Backpressure::Closed => Err(LogError::SendFailed("Channel closed")),
        Backpressure::TimedOut => Err(LogError::Timeout("Queue backpressure timeout")),
    }
}

/// Decides the next step of a log call from its first attempt to queue.
pub fn first_step(outcome: TrySend) -> (step: LogStep)
    ensures
        step == spec_first_step(outcome),
{
    match outcome {
        TrySend::Sent => LogStep::Queued,
        TrySend::Full(e) => LogStep::WaitForRoom(e),
        TrySend::Closed(_) => LogStep::Failed(LogError::SendFailed("Logger channel closed")),
    }
}

/// What a log call returns after waiting for room in a full queue.
pub fn backpressure_result(outcome: Backpressure) -> (r: Result<(), LogError>)
    ensures
        r == spec_backpressure_result(outcome),
{
    match outcome {
        Backpressure::Sent => Ok(()),
        Backpressure::Closed => Err(LogError::SendFailed("Channel closed")),
        Backpressure::TimedOut => Err(LogError::Timeout("Queue backpressure timeout")),
    }
}

/// The logger: the sending side of a bounded queue of log entries.
pub struct Logger {
    sender: Sender<LogEntry>,
    queue_capacity: usize,
}

impl Logger {
    /// The queue that the logger sends to is bounded by its queue capacity.
    #[verifier::type_invariant]
    spec fn bound_matches(self) -> bool {
        channel_bound(self.sender) == self.queue_capacity
    }

    /// The capacity of the queue.
    pub closed spec fn spec_queue_capacity(&self) -> usize {
        self.queue_capacity
    }

    /// The sending side of the logger's queue.
    pub closed spec fn spec_sender(&self) -> Sender<LogEntry> {
        self.sender
    }

    /// A logger with a queue of the configured capacity (10000 when none is
    /// configured), and the receiving end of that queue.
    pub fn new(config: &LoggerConfig) -> (r: (Logger, Receiver<LogEntry>))
        requires
            0 < config.spec_queue_capacity() <= MAX_QUEUE_CAPACITY,
        ensures
            r.0.spec_queue_capacity() == config.spec_queue_capacity(),
    {
        let queue_capacity = config.resolved_queue_capacity();
        let (sender, receiver) = bounded_channel(queue_capacity);
        (Logger { sender, queue_capacity }, receiver)
    }

    /// The capacity of the queue.
    pub fn queue_capacity(&self) -> (cap: usize)
        ensures
            cap == self.spec_queue_capacity(),
    {
        self.queue_capacity
    }

    /// The sending side of the logger's queue, for a send that waits for
    /// room; its queue is bounded by the logger's queue capacity.
    pub fn sender(&self) -> (s: &Sender<LogEntry>)
        ensures
            *s == self.spec_sender(),
            channel_bound(*s) == self.spec_queue_capacity(),
    {
        proof {
            use_type_invariant(self);
        }
        &self.sender
    }

    /// Reads how many slots of the queue are in use (its capacity minus its
    /// free slots) and says whether that is above 80 % of the capacity: the
    /// condition on which a log call warns.
    pub fn queue_utilization_high(&self) -> (r: (usize, bool))
        ensures
            r.0 <= self.spec_queue_capacity(),
            r.1 == spec_utilization_high(r.0 as int, self.spec_queue_capacity() as int),
    {
        proof {
            use_type_invariant(self);
        }
        let available = free_slots(&self.sender);
        let used = self.queue_capacity - available;
        (used, utilization_high(used, self.queue_capacity))
    }

    /// Tries to queue `entry` without waiting and decides what the log
    /// call does next: succeed, wait for room with this same entry, or fail
    /// with `SendFailed("Logger channel closed")`.
    pub fn try_log(&self, entry: LogEntry) -> (step: LogStep)
        ensures
            step matches LogStep::WaitForRoom(e) ==> e == entry,
            step matches LogStep::Failed(err) ==> err == LogError::SendFailed("Logger channel closed"),
    {
        let outcome = try_send(&self.sender, entry);
        first_step(outcome)
    }

    /// Closes the queue by dropping its sending side; always succeeds.
    pub fn shutdown(self) -> (r: Result<(), LogError>)
        ensures
            r is Ok,
    {
        Ok(())
    }
}

/// What a whole log call returns, from its first attempt to queue and, when
/// the queue was full, from how the wait for room ended.
pub open spec fn spec_log_result(first: TrySend, wait: Backpressure) -> Result<(), LogError> {
    match spec_first_step(first) {
        LogStep::Queued => Ok(()),
        LogStep::WaitForRoom(_) => spec_backpressure_result(wait),
        LogStep::Failed(e) => Err(e),
    }
}

/// A log call succeeds exactly when its entry got into the queue, at once or
/// within the backpressure timeout. It fails with `SendFailed` exactly when
/// the receiving side was gone, at the first attempt ("Logger channel
/// closed") or while waiting ("Channel closed"), and with `Timeout` exactly
/// when the queue stayed full for the whole timeout.
pub proof fn lemma_log_result(first: TrySend, wait: Backpressure)
    ensures
        spec_log_result(first, wait) is Ok <==> (first is Sent || (first is Full && wait is Sent)),
        spec_log_result(first, wait) == Err::<(), LogError>(LogError::SendFailed("Logger channel closed"))
            <==> first is Closed,
        spec_log_result(first, wait) == Err::<(), LogError>(LogError::SendFailed("Channel closed"))
            <==> (first is Full && wait is Closed),
        spec_log_result(first, wait) == Err::<(), LogError>(LogError::Timeout("Queue backpressure timeout"))
            <==> (first is Full && wait is TimedOut),
{
    reveal_strlit("Logger channel closed");
    reveal_strlit("Channel closed");
}

} // verus!
