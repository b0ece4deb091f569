//! The events that drive the viewer's state, and the external work a
//! state transition can ask for.

use crate::boot_info::BootInfo;
use crate::log_entry::LogEntry;
use vstd::prelude::*;

verus! {

/// One event consumed by the state-transition function: a user request,
/// or the completion of an external query.
#[derive(Debug)]
pub enum Message {
    LoadLogs,
    LogsLoaded(Result<Vec<LogEntry>, String>),
    UpdateFilter(String),
    UpdateLineCount(String),
    ClearFilter,
    ShowCurrentBoot,
    ShowBootList,
    BootListLoaded(Result<Vec<BootInfo>, String>),
    SelectBoot(i32),
    Export,
}

/// The external work a state transition asks for: which journal query
/// to run next, if any. The caller performs the query and hands its
/// outcome back as a `Message`.
#[derive(Debug)]
pub enum Command {
    Idle,
    LoadByLineCount(String),
    LoadByBoot(i32),
    LoadBootList,
}

} // verus!
