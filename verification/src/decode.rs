//! The record decoder: one line of the journal's structured output
//! becomes a `LogEntry`, with field fallback and priority labelling.

use crate::log_entry::{entry_views, LogEntry, LogEntryV};
use crate::text::{all_space, is_blank, lines_of, split_lines, str_views};
use vstd::prelude::*;

verus! {

/// The optional source fields of one structured journal line.
#[derive(Debug)]
pub struct JournalEntry {
    pub message: Option<String>,
    pub unit: Option<String>,
    pub priority: Option<String>,
    pub timestamp: Option<String>,
    pub syslog_id: Option<String>,
}

/// Mathematical image of the source fields.
pub ghost struct JournalEntryV {
    pub message: Option<Seq<char>>,
    pub unit: Option<Seq<char>>,
    pub priority: Option<Seq<char>>,
    pub timestamp: Option<Seq<char>>,
    pub syslog_id: Option<Seq<char>>,
}

pub open spec fn opt_str_view(o: Option<String>) -> Option<Seq<char>> {
    match o {
        Option::Some(s) => Option::Some(s@),
        Option::None => Option::None,
    }
}

impl View for JournalEntry {
    type V = JournalEntryV;

    open spec fn view(&self) -> JournalEntryV {
        JournalEntryV {
            message: opt_str_view(self.message),
            unit: opt_str_view(self.unit),
            priority: opt_str_view(self.priority),
            timestamp: opt_str_view(self.timestamp),
            syslog_id: opt_str_view(self.syslog_id),
        }
    }
}

/// What parsing one line of the journal's structured output yields: the
/// five named fields when the line is a well-formed record object,
/// nothing otherwise. The outcome is fixed by the external JSON parser
/// and depends on the characters of the line alone, so it is only named
/// here, never written out.
pub uninterp spec fn journal_fields_of(line: Seq<char>) -> Option<JournalEntryV>;

/// Relies on serde_json::from_str and serde_json::Value::{is_object,
/// get, as_str}: parses one line as a JSON object and reads the five
/// named fields, each taken when it holds a string. The outcome depends
/// on the characters of the line alone.
#[verifier::external_body]
fn parse_structured_line(line: &str) -> (r: Option<JournalEntry>)
    ensures
        (match r {
            Option::Some(e) => journal_fields_of(line@) == Option::Some(e@),
            Option::None => journal_fields_of(line@) == Option::None::<JournalEntryV>,
        }),
{
    let v: serde_json::Value = serde_json::from_str(line).ok()?;
    if !v.is_object() {
        return None;
    }
    Some(JournalEntry {
        message: v.get("MESSAGE").and_then(serde_json::Value::as_str).map(str::to_string),
        unit: v.get("_SYSTEMD_UNIT").and_then(serde_json::Value::as_str).map(str::to_string),
        priority: v.get("PRIORITY").and_then(serde_json::Value::as_str).map(str::to_string),
        timestamp: v.get("__REALTIME_TIMESTAMP").and_then(serde_json::Value::as_str).map(
            str::to_string,
        ),
        syslog_id: v.get("SYSLOG_IDENTIFIER").and_then(serde_json::Value::as_str).map(
            str::to_string,
        ),
    })
}

/// The fixed priority table: numeric severity code to readable label;
/// anything outside the eight codes labels as a question mark.
pub open spec fn label_of(p: Seq<char>) -> Seq<char> {
    if p == "0"@ {
        "EMERG"@
    } else if p == "1"@ {
        "ALERT"@
    } else if p == "2"@ {
        "CRIT"@
    } else if p == "3"@ {
        "ERROR"@
    } else if p == "4"@ {
        "WARN"@
    } else if p == "5"@ {
        "NOTICE"@
    } else if p == "6"@ {
        "INFO"@
    } else if p == "7"@ {
        "DEBUG"@
    } else {
        "?"@
    }
}

/// Maps a raw priority code to its readable label.
pub fn priority_label(p: &str) -> (r: &'static str)
    ensures
        r@ == label_of(p@),
{
    proof {
        reveal_strlit("0");
        reveal_strlit("1");
        reveal_strlit("2");
        reveal_strlit("3");
        reveal_strlit("4");
        reveal_strlit("5");
        reveal_strlit("6");
        reveal_strlit("7");
    }
    let n = p.unicode_len();
    if n == 1 {
        let c = p.get_char(0);
        if c == '0' {
            proof {
                assert(p@ =~= "0"@);
            }
            "EMERG"
        } else if c == '1' {
            proof {
                assert(p@ =~= "1"@);
            }
            "ALERT"
        } else if c == '2' {
            proof {
                assert(p@ =~= "2"@);
            }
            "CRIT"
        } else if c == '3' {
            proof {
                assert(p@ =~= "3"@);
            }
            "ERROR"
        } else if c == '4' {
            proof {
                assert(p@ =~= "4"@);
            }
            "WARN"
        } else if c == '5' {
            proof {
                assert(p@ =~= "5"@);
            }
            "NOTICE"
        } else if c == '6' {
            proof {
                assert(p@ =~= "6"@);
            }
            "INFO"
        } else if c == '7' {
            proof {
                assert(p@ =~= "7"@);
            }
            "DEBUG"
        } else {
            "?"
        }
    } else {
        "?"
    }
}

/// The record a well-formed line decodes to, from its source fields:
/// the message falls back to a placeholder, the unit to the syslog
/// identifier and then to a fixed name, the priority to the
/// informational code, the timestamp to empty text.
pub open spec fn record_of_fields(f: JournalEntryV) -> LogEntryV {
    LogEntryV {
        message: match f.message {
            Option::Some(m) => m,
            Option::None => "(no message)"@,
        },
        unit: match f.unit {
            Option::Some(u) => u,
            Option::None => match f.syslog_id {
                Option::Some(s) => s,
                Option::None => "unknown"@,
            },
        },
        priority: match f.priority {
            Option::Some(p) => p,
            Option::None => "6"@,
        },
        priority_text: label_of(
            match f.priority {
                Option::Some(p) => p,
                Option::None => "6"@,
            },
        ),
        timestamp: match f.timestamp {
            Option::Some(t) => t,
            Option::None => Seq::empty(),
        },
    }
}

/// Builds the record for one line's source fields, applying the field
/// fallback rules.
pub fn entry_from_fields(fields: JournalEntry) -> (r: LogEntry)
    ensures
        r@ == record_of_fields(fields@),
{
    let message = match fields.message {
        Option::Some(m) => m,
        Option::None => String::from_str("(no message)"),
    };
    let unit = match fields.unit {
        Option::Some(u) => u,
        Option::None => match fields.syslog_id {
            Option::Some(s) => s,
            Option::None => String::from_str("unknown"),
        },
    };
    let priority = match fields.priority {
        Option::Some(p) => p,
        Option::None => String::from_str("6"),
    };
    let priority_text = String::from_str(priority_label(priority.as_str()));
    let timestamp = match fields.timestamp {
        Option::Some(t) => t,
        Option::None => String::new(),
    };
    let r = LogEntry { message, unit, priority, priority_text, timestamp };
    proof {
        assert(r@.timestamp =~= record_of_fields(fields@).timestamp);
    }
    r
}

/// What one line of journal output decodes to, if anything. Decoding is
/// a function of the line alone, so two decodings of one line agree.
pub open spec fn spec_decode_line(l: Seq<char>) -> Option<LogEntryV> {
    match journal_fields_of(l) {
        Option::Some(f) => Option::Some(record_of_fields(f)),
        Option::None => Option::None,
    }
}

/// Decodes one line of structured journal output; a line that is not a
/// well-formed record yields nothing.
pub fn decode_line(line: &str) -> (r: Option<LogEntry>)
    ensures
        (match r {
            Option::Some(e) => spec_decode_line(line@) == Option::Some(e@),
            Option::None => spec_decode_line(line@) == Option::None::<LogEntryV>,
        }),
{
    match parse_structured_line(line) {
        Option::Some(fields) => Option::Some(entry_from_fields(fields)),
        Option::None => Option::None,
    }
}

/// Records decoded from a sequence of output lines: blank lines and
/// lines that fail to decode are skipped, the rest decode in order.
pub open spec fn records_of_lines(lines: Seq<Seq<char>>) -> Seq<LogEntryV>
    decreases lines.len(),
{
    if lines.len() == 0 {
        Seq::empty()
    } else {
        let rest = records_of_lines(lines.drop_first());
        if all_space(lines[0]) {
            rest
        } else {
            match spec_decode_line(lines[0]) {
                Option::Some(e) => seq![e] + rest,
                Option::None => rest,
            }
        }
    }
}

/// Records decoded from the whole output text of a journal query.
pub open spec fn spec_decode_output(text: Seq<char>) -> Seq<LogEntryV> {
    records_of_lines(split_lines(text))
}

/// The non-blank lines of a sequence of output lines that fail to
/// decode, in order: the ones a batch skips, kept for diagnostics.
pub open spec fn skipped_of_lines(lines: Seq<Seq<char>>) -> Seq<Seq<char>>
    decreases lines.len(),
{
    if lines.len() == 0 {
        Seq::empty()
    } else {
        let rest = skipped_of_lines(lines.drop_first());
        if !all_space(lines[0]) && spec_decode_line(lines[0]) is None {
            seq![lines[0]] + rest
        } else {
            rest
        }
    }
}

/// The lines of the whole output text that a batch decode skips.
pub open spec fn spec_skipped_lines(text: Seq<char>) -> Seq<Seq<char>> {
    skipped_of_lines(split_lines(text))
}

/// Decodes the full line-delimited output of a journal query and also
/// hands back each non-blank line that failed to decode, in input
/// order, so the caller can surface a diagnostic per skipped line. A
/// bad line never fails the batch.
pub fn decode_log_output_reporting(text: &str) -> (r: (Vec<LogEntry>, Vec<String>))
    ensures
        entry_views(r.0@) == spec_decode_output(text@),
        str_views(r.1@) == spec_skipped_lines(text@),
{
    let lines = lines_of(text);
    let ghost lv = str_views(lines@);
    let mut out: Vec<LogEntry> = Vec::new();
    let mut skipped: Vec<String> = Vec::new();
    let mut i: usize = 0;
    proof {
        assert(lv.skip(0) =~= lv);
        assert(entry_views(out@) =~= Seq::<LogEntryV>::empty());
        assert(entry_views(out@) + records_of_lines(lv) =~= records_of_lines(lv));
        assert(str_views(skipped@) =~= Seq::<Seq<char>>::empty());
        assert(str_views(skipped@) + skipped_of_lines(lv) =~= skipped_of_lines(lv));
    }
    while i < lines.len()
        invariant
            i <= lines.len(),
            lv == str_views(lines@),
            entry_views(out@) + records_of_lines(lv.skip(i as int)) == records_of_lines(lv),
            str_views(skipped@) + skipped_of_lines(lv.skip(i as int)) == skipped_of_lines(
                lv,
            ),
        decreases lines.len() - i,
    {
        let line = &lines[i];
        proof {
            assert(lv.skip(i as int).drop_first() =~= lv.skip(i + 1));
            assert(lv.skip(i as int)[0] == lv[i as int]);
            assert(lv[i as int] == line@);
        }
        if !is_blank(line.as_str()) {
            match decode_line(line.as_str()) {
                Option::Some(e) => {
                    proof {
                        assert(entry_views(out@.push(e)) =~= entry_views(out@) + seq![e@]);
                        assert(entry_views(out@) + (seq![e@] + records_of_lines(
                            lv.skip(i + 1),
                        )) =~= (entry_views(out@) + seq![e@]) + records_of_lines(
                            lv.skip(i + 1),
                        ));
                    }
                    out.push(e);
                },
                Option::None => {
                    proof {
                        assert(str_views(skipped@.push(*line)) =~= str_views(skipped@)
                            + seq![line@]);
                        assert(str_views(skipped@) + (seq![line@] + skipped_of_lines(
                            lv.skip(i + 1),
                        )) =~= (str_views(skipped@) + seq![line@]) + skipped_of_lines(
                            lv.skip(i + 1),
                        ));
                    }
                    skipped.push(line.clone());
                },
            }
        }
        i = i + 1;
    }
    proof {
        assert(lv.skip(lines@.len() as int).len() == 0);
        assert(entry_views(out@) + Seq::<LogEntryV>::empty() =~= entry_views(out@));
        assert(str_views(skipped@) + Seq::<Seq<char>>::empty() =~= str_views(skipped@));
    }
    (out, skipped)
}

/// Decodes the full line-delimited output of a journal query. A line
/// that fails to decode is skipped and decoding continues: one bad line
/// never fails the batch.
pub fn decode_log_output(text: &str) -> (r: Vec<LogEntry>)
    ensures
        entry_views(r@) == spec_decode_output(text@),
{
    decode_log_output_reporting(text).0
}

} // verus!
