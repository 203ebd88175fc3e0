use vstd::prelude::*;

verus! {

/// Severity of a log entry.
#[derive(Clone, Copy, Debug, PartialEq, Eq, Structural)]
pub enum SerializableLevel {
    Error,
    Warn,
    Info,
    Debug,
    Trace,
}

/// A structured log entry.
#[derive(Clone, Debug)]
pub struct LogEntry {
    /// Milliseconds since the Unix epoch, in UTC, at which the entry was made.
    pub timestamp: i64,
    pub level: SerializableLevel,
    pub message: String,
    pub source: String,
    pub request_id: Option<String>,
    pub user_id: Option<String>,
    pub fields: Vec<(String, String)>,
}

/// Reads the UTC wall clock.
///
/// Calls `chrono::Utc::now` and converts the result with
/// `DateTime::timestamp_millis`. The value is the time of the call, so only
/// its sign is claimed: `Utc::now` measures the time elapsed since the Unix
/// epoch, and panics when the system clock is set before it (a state of
/// the machine, which no `requires` can rule out).
#[verifier::external_body]
fn utc_now_millis() -> (ms: i64)
    ensures
        ms >= 0,
{
    chrono::Utc::now().timestamp_millis()
}

impl LogEntry {
    /// A new entry stamped with the current time; every other field is the
    /// argument given for it.
    pub fn new(
        level: SerializableLevel,
        message: String,
        source: String,
        request_id: Option<String>,
        user_id: Option<String>,
        fields: Vec<(String, String)>,
    ) -> (entry: LogEntry)
        ensures
            entry.timestamp >= 0,
            entry.level == level,
            entry.message@ == message@,
            entry.source@ == source@,
            entry.request_id == request_id,
            entry.user_id == user_id,
            entry.fields@ == fields@,
    {
        let timestamp = utc_now_millis();
        LogEntry { timestamp, level, message, source, request_id, user_id, fields }
    }

    /// An entry with only a level, a message and a source: no request id,
    /// no user id and no extra fields.
    pub fn from_message(level: SerializableLevel, message: &str, source: &str) -> (entry: LogEntry)
        ensures
            entry.timestamp >= 0,
            entry.level == level,
            entry.message@ == message@,
            entry.source@ == source@,
            entry.request_id is None,
            entry.user_id is None,
            entry.fields@ == Seq::<(String, String)>::empty(),
    {
        LogEntry::new(level, message.to_owned(), source.to_owned(), None, None, Vec::new())
    }
}

} // verus!
