use vstd::prelude::*;

verus! {

/// Severity of a diagnostic event written to the host's log stream.
#[derive(Clone, Copy, Debug, PartialEq, Eq, Structural)]
pub enum Level {
    Info,
    Error,
}

/// A level-tagged diagnostic message.
#[derive(Clone, Debug, PartialEq, Eq)]
pub struct LogEvent {
    pub level: Level,
    pub message: String,
}

impl LogEvent {
    /// The event carries exactly this level and this text.
    pub open spec fn is(self, level: Level, text: Seq<char>) -> bool {
        self.level == level && self.message@ == text
    }
}

/// Builds an event from a level and a text.
pub fn log_event(level: Level, text: &str) -> (e: LogEvent)
    ensures
        e.is(level, text@),
{
    LogEvent { level, message: String::from_str(text) }
}

/// Builds an event whose text is `prefix` followed by `detail`.
pub fn log_event_with(level: Level, prefix: &str, detail: &String) -> (e: LogEvent)
    ensures
        e.is(level, prefix@ + detail@),
{
    let mut message = String::from_str(prefix);
    message.append(detail.as_str());
    LogEvent { level, message }
}

} // verus!
