//! The general properties the library keeps, stated over the spec
//! functions its contracts use and proved once and for all.

use crate::decode::{label_of, record_of_fields, spec_decode_line, JournalEntryV};
use crate::log_entry::LogEntryV;
use crate::state::{entry_matches_spec, lemma_spec_filtered_push, spec_filtered};
use vstd::prelude::*;

verus! {

/// Decoding is deterministic: what a line decodes to is a function of
/// the line alone, so two decodings of one line agree.
pub proof fn lemma_decode_deterministic(
    line: Seq<char>,
    a: Option<LogEntryV>,
    b: Option<LogEntryV>,
)
    requires
        a == spec_decode_line(line),
        b == spec_decode_line(line),
    ensures
        a == b,
{
}

/// The priority mapping is total: each of the eight numeric codes maps
/// to its fixed label, and every other text — empty, negative,
/// non-numeric — maps to the question mark.
pub proof fn lemma_priority_mapping_total(p: Seq<char>)
    ensures
        p == "0"@ ==> label_of(p) == "EMERG"@,
        p == "1"@ ==> label_of(p) == "ALERT"@,
        p == "2"@ ==> label_of(p) == "CRIT"@,
        p == "3"@ ==> label_of(p) == "ERROR"@,
        p == "4"@ ==> label_of(p) == "WARN"@,
        p == "5"@ ==> label_of(p) == "NOTICE"@,
        p == "6"@ ==> label_of(p) == "INFO"@,
        p == "7"@ ==> label_of(p) == "DEBUG"@,
        (p != "0"@ && p != "1"@ && p != "2"@ && p != "3"@ && p != "4"@ && p != "5"@ && p
            != "6"@ && p != "7"@) ==> label_of(p) == "?"@,
{
    lemma_code_literals();
}

/// The eight priority code literals hold one character each, and the
/// characters differ pairwise.
proof fn lemma_code_literals()
    ensures
        "0"@.len() == 1 && "0"@[0] == '0',
        "1"@.len() == 1 && "1"@[0] == '1',
        "2"@.len() == 1 && "2"@[0] == '2',
        "3"@.len() == 1 && "3"@[0] == '3',
        "4"@.len() == 1 && "4"@[0] == '4',
        "5"@.len() == 1 && "5"@[0] == '5',
        "6"@.len() == 1 && "6"@[0] == '6',
        "7"@.len() == 1 && "7"@[0] == '7',
{
    reveal_strlit("0");
    reveal_strlit("1");
    reveal_strlit("2");
    reveal_strlit("3");
    reveal_strlit("4");
    reveal_strlit("5");
    reveal_strlit("6");
    reveal_strlit("7");
}

/// An absent priority defaults to the raw informational code and its
/// label.
pub proof fn lemma_absent_priority_defaults(f: JournalEntryV)
    requires
        f.priority is None,
    ensures
        record_of_fields(f).priority == "6"@,
        record_of_fields(f).priority_text == "INFO"@,
{
    lemma_code_literals();
    assert(label_of("6"@) == "INFO"@);
}

/// An absent message defaults to the fixed placeholder text.
pub proof fn lemma_absent_message_default(f: JournalEntryV)
    requires
        f.message is None,
    ensures
        record_of_fields(f).message == "(no message)"@,
{
}

/// With both unit fields absent the unit defaults to the fixed name.
pub proof fn lemma_absent_unit_default(f: JournalEntryV)
    requires
        f.unit is None,
        f.syslog_id is None,
    ensures
        record_of_fields(f).unit == "unknown"@,
{
}

/// Every record a non-empty filter keeps satisfies the filter, so
/// filtering what was already filtered keeps everything.
proof fn lemma_filter_all_matching(s: Seq<LogEntryV>, filter: Seq<char>)
    requires
        filter.len() > 0,
        forall|i: int| 0 <= i < s.len() ==> entry_matches_spec(#[trigger] s[i], filter),
    ensures
        spec_filtered(s, filter) == s,
    decreases s.len(),
{
    if s.len() == 0 {
        assert(spec_filtered(s, filter) =~= s);
    } else {
        let head = s.drop_last();
        assert(forall|i: int|
            0 <= i < head.len() ==> entry_matches_spec(#[trigger] head[i], filter));
        lemma_filter_all_matching(head, filter);
        assert(head.push(s.last()) =~= s);
        lemma_spec_filtered_push(head, s.last(), filter);
        assert(entry_matches_spec(s[s.len() - 1], filter));
    }
}

/// Filtering is idempotent: applying one filter text twice yields the
/// same view as applying it once.
pub proof fn lemma_filter_idempotent(all: Seq<LogEntryV>, filter: Seq<char>)
    ensures
        spec_filtered(spec_filtered(all, filter), filter) == spec_filtered(all, filter),
    decreases all.len(),
{
    if filter.len() > 0 {
        let once = spec_filtered(all, filter);
        lemma_every_kept_record_matches(all, filter);
        lemma_filter_all_matching(once, filter);
    }
}

/// Every record the filtered view holds is retained by the filter.
pub proof fn lemma_every_kept_record_matches(all: Seq<LogEntryV>, filter: Seq<char>)
    requires
        filter.len() > 0,
    ensures
        forall|i: int|
            0 <= i < spec_filtered(all, filter).len() ==> entry_matches_spec(
                #[trigger] spec_filtered(all, filter)[i],
                filter,
            ),
    decreases all.len(),
{
    if all.len() == 0 {
        assert(spec_filtered(all, filter) =~= Seq::<LogEntryV>::empty());
    } else {
        let head = all.drop_last();
        lemma_every_kept_record_matches(head, filter);
        assert(head.push(all.last()) =~= all);
        lemma_spec_filtered_push(head, all.last(), filter);
        if entry_matches_spec(all.last(), filter) {
            assert(spec_filtered(all, filter) == spec_filtered(head, filter).push(
                all.last(),
            ));
        }
    }
}

/// An empty filter keeps the full set, element for element and in
/// order.
pub proof fn lemma_empty_filter_identity(all: Seq<LogEntryV>)
    ensures
        spec_filtered(all, Seq::<char>::empty()) == all,
{
}

} // verus!
