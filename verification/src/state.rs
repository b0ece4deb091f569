//! The viewer's aggregate state: the loaded records, the filtered
//! view, and the single state-transition function that consumes events
//! and asks for external work.

use crate::boot_info::BootInfo;
use crate::log_entry::{clone_entry, entry_views, LogEntry, LogEntryV};
use crate::message::{Command, Message};
use crate::text::{is_substring, lower_of, str_contains, to_lowercase};
use vstd::prelude::*;

verus! {

/// Whether a record is retained by a non-empty filter: the lowercased
/// filter text occurs in the lowercased message or in the lowercased
/// unit.
pub open spec fn entry_matches_spec(e: LogEntryV, filter: Seq<char>) -> bool {
    is_substring(lower_of(filter), lower_of(e.message)) || is_substring(
        lower_of(filter),
        lower_of(e.unit),
    )
}

/// The filtered view: the full set for empty filter text, else exactly
/// the records the filter retains, in their original order.
pub open spec fn spec_filtered(all: Seq<LogEntryV>, filter: Seq<char>) -> Seq<LogEntryV> {
    if filter.len() == 0 {
        all
    } else {
        all.filter(|e: LogEntryV| entry_matches_spec(e, filter))
    }
}

/// Extending the full set by one record extends the filtered view by
/// that record exactly when the filter retains it.
pub proof fn lemma_spec_filtered_push(all: Seq<LogEntryV>, e: LogEntryV, filter: Seq<char>)
    requires
        filter.len() > 0,
    ensures
        spec_filtered(all.push(e), filter) == (if entry_matches_spec(e, filter) {
            spec_filtered(all, filter).push(e)
        } else {
            spec_filtered(all, filter)
        }),
{
    all.lemma_filter_push(e, |e2: LogEntryV| entry_matches_spec(e2, filter));
}

/// Whether a record is retained by the already lowercased filter text
/// `filter_lower`. The predicate is total: it never fails, whatever
/// the record holds.
pub fn entry_matches(e: &LogEntry, filter_lower: &str) -> (r: bool)
    ensures
        r == (is_substring(filter_lower@, lower_of(e@.message)) || is_substring(
            filter_lower@,
            lower_of(e@.unit),
        )),
{
    let m = to_lowercase(e.message.as_str());
    if str_contains(m.as_str(), filter_lower) {
        true
    } else {
        let u = to_lowercase(e.unit.as_str());
        str_contains(u.as_str(), filter_lower)
    }
}

/// The viewer's aggregate state: the full loaded set, the filtered
/// view derived from it, the active filter text, and the surrounding
/// interface state.
pub struct JournalApp {
    pub logs: Vec<LogEntry>,
    pub filtered_logs: Vec<LogEntry>,
    pub filter: String,
    pub line_count: String,
    pub loading: bool,
    pub error_message: Option<String>,
    pub boot_list: Vec<BootInfo>,
    pub show_boot_list: bool,
}

impl JournalApp {
    /// The consistency the state keeps: the filtered view is exactly
    /// what the active filter retains of the full set, in order.
    pub open spec fn wf(self) -> bool {
        entry_views(self.filtered_logs@) == spec_filtered(
            entry_views(self.logs@),
            self.filter@,
        )
    }

    /// Recomputes the filtered view from the full set and the active
    /// filter text; nothing else changes.
    pub fn apply_filter(&mut self)
        ensures
            final(self).logs == old(self).logs,
            final(self).filter == old(self).filter,
            final(self).line_count == old(self).line_count,
            final(self).loading == old(self).loading,
            final(self).error_message == old(self).error_message,
            final(self).boot_list == old(self).boot_list,
            final(self).show_boot_list == old(self).show_boot_list,
            final(self).wf(),
    {
        if self.filter.as_str().is_empty() {
            let mut copy: Vec<LogEntry> = Vec::new();
            let mut i: usize = 0;
            proof {
                assert(copy@ =~= self.logs@.take(0));
            }
            while i < self.logs.len()
                invariant
                    i <= self.logs.len(),
                    copy@ == self.logs@.take(i as int),
                decreases self.logs.len() - i,
            {
                proof {
                    assert(self.logs@.take(i + 1) =~= self.logs@.take(i as int).push(
                        self.logs@[i as int],
                    ));
                }
                copy.push(clone_entry(&self.logs[i]));
                i = i + 1;
            }
            proof {
                assert(self.logs@.take(self.logs@.len() as int) =~= self.logs@);
            }
            self.filtered_logs = copy;
        } else {
            let filter_lower = to_lowercase(self.filter.as_str());
            let mut kept: Vec<LogEntry> = Vec::new();
            let mut i: usize = 0;
            proof {
                assert(entry_views(self.logs@.take(0)) =~= Seq::<LogEntryV>::empty());
                assert(entry_views(kept@) =~= Seq::<LogEntryV>::empty());
                assert(Seq::<LogEntryV>::empty().filter(
                    |e: LogEntryV| entry_matches_spec(e, self.filter@),
                ) =~= Seq::<LogEntryV>::empty());
            }
            while i < self.logs.len()
                invariant
                    i <= self.logs.len(),
                    self.filter@.len() > 0,
                    filter_lower@ == lower_of(self.filter@),
                    entry_views(kept@) == spec_filtered(
                        entry_views(self.logs@.take(i as int)),
                        self.filter@,
                    ),
                decreases self.logs.len() - i,
            {
                let e = &self.logs[i];
                proof {
                    assert(entry_views(self.logs@.take(i + 1)) =~= entry_views(
                        self.logs@.take(i as int),
                    ).push(e@));
                    lemma_spec_filtered_push(
                        entry_views(self.logs@.take(i as int)),
                        e@,
                        self.filter@,
                    );
                }
                if entry_matches(e, filter_lower.as_str()) {
                    proof {
                        assert(entry_views(kept@.push(*e)) =~= entry_views(kept@).push(e@));
                    }
                    kept.push(clone_entry(e));
                }
                i = i + 1;
            }
            proof {
                assert(self.logs@.take(self.logs@.len() as int) =~= self.logs@);
            }
            self.filtered_logs = kept;
        }
    }

    /// Consumes one event, updates the state as the event demands, and
    /// returns the external query to run next, if any. The filtered
    /// view stays consistent with the full set and the filter text.
    pub fn update(&mut self, message: Message) -> (cmd: Command)
        ensures
            old(self).wf() ==> final(self).wf(),
            (match message {
                Message::LoadLogs => {
                    &&& final(self).loading
                    &&& final(self).error_message is None
                    &&& final(self).logs == old(self).logs
                    &&& final(self).filtered_logs == old(self).filtered_logs
                    &&& final(self).filter == old(self).filter
                    &&& final(self).line_count == old(self).line_count
                    &&& final(self).boot_list == old(self).boot_list
                    &&& final(self).show_boot_list == old(self).show_boot_list
                    &&& (cmd matches Command::LoadByLineCount(c) && c@ == old(
                        self,
                    ).line_count@)
                },
                Message::LogsLoaded(result) => {
                    &&& !final(self).loading
                    &&& (match result {
                        Result::Ok(logs) => {
                            &&& final(self).logs == logs
                            &&& entry_views(final(self).filtered_logs@) == spec_filtered(
                                entry_views(logs@),
                                old(self).filter@,
                            )
                            &&& final(self).error_message == old(self).error_message
                        },
                        Result::Err(e) => {
                            &&& final(self).logs == old(self).logs
                            &&& final(self).filtered_logs == old(self).filtered_logs
                            &&& final(self).error_message == Option::Some(e)
                        },
                    })
                    &&& final(self).filter == old(self).filter
                    &&& final(self).line_count == old(self).line_count
                    &&& final(self).boot_list == old(self).boot_list
                    &&& final(self).show_boot_list == old(self).show_boot_list
                    &&& (cmd matches Command::Idle)
                },
                Message::UpdateFilter(f) => {
                    &&& final(self).filter == f
                    &&& entry_views(final(self).filtered_logs@) == spec_filtered(
                        entry_views(old(self).logs@),
                        f@,
                    )
                    &&& final(self).logs == old(self).logs
                    &&& final(self).line_count == old(self).line_count
                    &&& final(self).loading == old(self).loading
                    &&& final(self).error_message == old(self).error_message
                    &&& final(self).boot_list == old(self).boot_list
                    &&& final(self).show_boot_list == old(self).show_boot_list
                    &&& (cmd matches Command::Idle)
                },
                Message::UpdateLineCount(c) => {
                    &&& final(self).line_count == c
                    &&& final(self).logs == old(self).logs
                    &&& final(self).filtered_logs == old(self).filtered_logs
                    &&& final(self).filter == old(self).filter
                    &&& final(self).loading == old(self).loading
                    &&& final(self).error_message == old(self).error_message
                    &&& final(self).boot_list == old(self).boot_list
                    &&& final(self).show_boot_list == old(self).show_boot_list
                    &&& (cmd matches Command::Idle)
                },
                Message::ClearFilter => {
                    &&& final(self).filter@ == Seq::<char>::empty()
                    &&& entry_views(final(self).filtered_logs@) == entry_views(
                        old(self).logs@,
                    )
                    &&& final(self).logs == old(self).logs
                    &&& final(self).line_count == old(self).line_count
                    &&& final(self).loading == old(self).loading
                    &&& final(self).error_message == old(self).error_message
                    &&& final(self).boot_list == old(self).boot_list
                    &&& final(self).show_boot_list == old(self).show_boot_list
                    &&& (cmd matches Command::Idle)
                },
                Message::ShowCurrentBoot => {
                    &&& final(self).loading
                    &&& final(self).error_message is None
                    &&& final(self).logs == old(self).logs
                    &&& final(self).filtered_logs == old(self).filtered_logs
                    &&& final(self).filter == old(self).filter
                    &&& final(self).line_count == old(self).line_count
                    &&& final(self).boot_list == old(self).boot_list
                    &&& final(self).show_boot_list == old(self).show_boot_list
                    &&& (cmd matches Command::LoadByBoot(off) && off == 0)
                },
                Message::ShowBootList => {
                    &&& final(self).loading
                    &&& final(self).error_message is None
                    &&& final(self).show_boot_list
                    &&& final(self).logs == old(self).logs
                    &&& final(self).filtered_logs == old(self).filtered_logs
                    &&& final(self).filter == old(self).filter
                    &&& final(self).line_count == old(self).line_count
                    &&& final(self).boot_list == old(self).boot_list
                    &&& (cmd matches Command::LoadBootList)
                },
                Message::BootListLoaded(result) => {
                    &&& !final(self).loading
                    &&& (match result {
                        Result::Ok(boots) => {
                            &&& final(self).boot_list == boots
                            &&& final(self).error_message == old(self).error_message
                            &&& final(self).show_boot_list == old(self).show_boot_list
                        },
                        Result::Err(e) => {
                            &&& final(self).boot_list == old(self).boot_list
                            &&& final(self).error_message == Option::Some(e)
                            &&& !final(self).show_boot_list
                        },
                    })
                    &&& final(self).logs == old(self).logs
                    &&& final(self).filtered_logs == old(self).filtered_logs
                    &&& final(self).filter == old(self).filter
                    &&& final(self).line_count == old(self).line_count
                    &&& (cmd matches Command::Idle)
                },
                Message::SelectBoot(offset) => {
                    &&& final(self).loading
                    &&& final(self).error_message is None
                    &&& !final(self).show_boot_list
                    &&& final(self).logs == old(self).logs
                    &&& final(self).filtered_logs == old(self).filtered_logs
                    &&& final(self).filter == old(self).filter
                    &&& final(self).line_count == old(self).line_count
                    &&& final(self).boot_list == old(self).boot_list
                    &&& (cmd matches Command::LoadByBoot(off) && off == offset)
                },
                Message::Export => {
                    &&& *final(self) == *old(self)
                    &&& (cmd matches Command::Idle)
                },
            }),
    {
        match message {
            Message::LoadLogs => {
                self.loading = true;
                self.error_message = Option::None;
                Command::LoadByLineCount(self.line_count.clone())
            },
            Message::LogsLoaded(result) => {
                self.loading = false;
                match result {
                    Result::Ok(logs) => {
                        self.logs = logs;
                        self.apply_filter();
                    },
                    Result::Err(e) => {
                        self.error_message = Option::Some(e);
                    },
                }
                Command::Idle
            },
            Message::UpdateFilter(f) => {
                self.filter = f;
                self.apply_filter();
                Command::Idle
            },
            Message::UpdateLineCount(c) => {
                self.line_count = c;
                Command::Idle
            },
            Message::ClearFilter => {
                self.filter = String::new();
                self.apply_filter();
                Command::Idle
            },
            Message::ShowCurrentBoot => {
                self.loading = true;
                self.error_message = Option::None;
                Command::LoadByBoot(0)
            },
            Message::ShowBootList => {
                self.loading = true;
                self.error_message = Option::None;
                self.show_boot_list = true;
                Command::LoadBootList
            },
            Message::BootListLoaded(result) => {
                self.loading = false;
                match result {
                    Result::Ok(boots) => {
                        self.boot_list = boots;
                    },
                    Result::Err(e) => {
                        self.error_message = Option::Some(e);
                        self.show_boot_list = false;
                    },
                }
                Command::Idle
            },
            Message::SelectBoot(offset) => {
                self.loading = true;
                self.error_message = Option::None;
                self.show_boot_list = false;
                Command::LoadByBoot(offset)
            },
            Message::Export => {
                Command::Idle
            },
        }
    }
}

impl Default for JournalApp {
    /// The initial state: nothing loaded, no filter, the default line
    /// count of one hundred, nothing in progress.
    fn default() -> (r: Self)
        ensures
            r.logs@ == Seq::<LogEntry>::empty(),
            r.filtered_logs@ == Seq::<LogEntry>::empty(),
            r.filter@ == Seq::<char>::empty(),
            r.line_count@ == "100"@,
            !r.loading,
            r.error_message is None,
            r.boot_list@ == Seq::<BootInfo>::empty(),
            !r.show_boot_list,
            r.wf(),
    {
        let r = JournalApp {
            logs: Vec::new(),
            filtered_logs: Vec::new(),
            filter: String::new(),
            line_count: String::from_str("100"),
            loading: false,
            error_message: Option::None,
            boot_list: Vec::new(),
            show_boot_list: false,
        };
        proof {
            assert(entry_views(r.filtered_logs@) =~= Seq::<LogEntryV>::empty());
            assert(entry_views(r.logs@) =~= Seq::<LogEntryV>::empty());
        }
        r
    }
}

} // verus!
