//! One decoded journal record.

use vstd::prelude::*;

verus! {

/// A journal entry after decoding: human-readable text, originating
/// unit, raw priority code, its readable label, and the raw timestamp.
#[derive(Debug, Clone)]
pub struct LogEntry {
    pub message: String,
    pub unit: String,
    pub priority: String,
    pub priority_text: String,
    pub timestamp: String,
}

/// Mathematical image of a record: its fields as character sequences.
pub ghost struct LogEntryV {
    pub message: Seq<char>,
    pub unit: Seq<char>,
    pub priority: Seq<char>,
    pub priority_text: Seq<char>,
    pub timestamp: Seq<char>,
}

impl View for LogEntry {
    type V = LogEntryV;

    open spec fn view(&self) -> LogEntryV {
        LogEntryV {
            message: self.message@,
            unit: self.unit@,
            priority: self.priority@,
            priority_text: self.priority_text@,
            timestamp: self.timestamp@,
        }
    }
}

/// Views of a sequence of records.
pub open spec fn entry_views(s: Seq<LogEntry>) -> Seq<LogEntryV> {
    s.map_values(|e: LogEntry| e@)
}

/// Copies a record, field for field.
pub fn clone_entry(e: &LogEntry) -> (r: LogEntry)
    ensures
        r == *e,
{
    LogEntry {
        message: e.message.clone(),
        unit: e.unit.clone(),
        priority: e.priority.clone(),
        priority_text: e.priority_text.clone(),
        timestamp: e.timestamp.clone(),
    }
}

} // verus!
