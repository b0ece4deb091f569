//! The load orchestrator's pure part: the argument lists of the three
//! journal queries, and the handling of each query's outcome. Running
//! the external tool itself is left to the caller.

use crate::boot_info::{boot_views, BootInfo};
use crate::boots::{parse_boot_list, spec_boot_list};
use crate::decode::{
    decode_log_output, decode_log_output_reporting, spec_decode_output, spec_skipped_lines,
};
use crate::log_entry::{entry_views, LogEntry};
use crate::text::{
    dec_str, dec_str_signed, i32_to_string, parse_u32_or, parse_u32_or_default, str_views,
    u32_to_string,
};
use vstd::prelude::*;

verus! {

/// The fixed tail of both record queries: no pager, structured output,
/// exactly the five named fields.
pub open spec fn fixed_query_tail() -> Seq<Seq<char>> {
    seq![
        "--no-pager"@,
        "-o"@,
        "json"@,
        "--output-fields=MESSAGE,_SYSTEMD_UNIT,PRIORITY,__REALTIME_TIMESTAMP,SYSLOG_IDENTIFIER"@,
    ]
}

/// Appends the fixed record-query tail to the given leading arguments.
pub fn query_args_with(extra: Vec<String>) -> (r: Vec<String>)
    ensures
        str_views(r@) == str_views(extra@) + fixed_query_tail(),
{
    let mut r = extra;
    r.push(String::from_str("--no-pager"));
    r.push(String::from_str("-o"));
    r.push(String::from_str("json"));
    r.push(
        String::from_str(
            "--output-fields=MESSAGE,_SYSTEMD_UNIT,PRIORITY,__REALTIME_TIMESTAMP,SYSLOG_IDENTIFIER",
        ),
    );
    proof {
        assert(str_views(r@) =~= str_views(extra@) + fixed_query_tail());
    }
    r
}

/// The arguments of the line-count query, asking for the most recent
/// `n` entries; count text that does not parse substitutes the default
/// of one hundred.
pub open spec fn spec_line_count_args(count_text: Seq<char>) -> Seq<Seq<char>> {
    seq!["-n"@, dec_str(parse_u32_or(count_text, 100) as int)] + fixed_query_tail()
}

/// Builds the line-count query: `-n` and the requested count, then the
/// fixed tail. A count that does not parse never rejects the request;
/// the default is substituted silently.
pub fn line_count_query_args(count_text: &str) -> (r: Vec<String>)
    ensures
        str_views(r@) == spec_line_count_args(count_text@),
{
    let count = parse_u32_or_default(count_text, 100);
    let mut head: Vec<String> = Vec::new();
    head.push(String::from_str("-n"));
    head.push(u32_to_string(count));
    let ghost hv = str_views(head@);
    proof {
        assert(hv =~= seq!["-n"@, dec_str(parse_u32_or(count_text@, 100) as int)]);
    }
    query_args_with(head)
}

/// The arguments of the boot-scoped query: the boot at the given
/// signed offset, zero for the current boot.
pub open spec fn spec_boot_args(offset: int) -> Seq<Seq<char>> {
    seq!["-b"@, dec_str_signed(offset)] + fixed_query_tail()
}

/// Builds the boot-scoped query: `-b` and the offset, then the fixed
/// tail.
pub fn boot_query_args(offset: i32) -> (r: Vec<String>)
    ensures
        str_views(r@) == spec_boot_args(offset as int),
{
    let mut head: Vec<String> = Vec::new();
    head.push(String::from_str("-b"));
    head.push(i32_to_string(offset));
    let ghost hv = str_views(head@);
    proof {
        assert(hv =~= seq!["-b"@, dec_str_signed(offset as int)]);
    }
    query_args_with(head)
}

/// The arguments of the boot-listing query.
pub open spec fn spec_boot_list_args() -> Seq<Seq<char>> {
    seq!["--list-boots"@, "--no-pager"@]
}

/// Builds the boot-listing query.
pub fn boot_list_query_args() -> (r: Vec<String>)
    ensures
        str_views(r@) == spec_boot_list_args(),
{
    let mut r: Vec<String> = Vec::new();
    r.push(String::from_str("--list-boots"));
    r.push(String::from_str("--no-pager"));
    proof {
        assert(str_views(r@) =~= spec_boot_list_args());
    }
    r
}

/// The failure text when the journal tool ran but exited non-success:
/// its own diagnostic text behind a fixed prefix, closed by the hint
/// to retry with elevated privileges, since the journal is frequently
/// access-restricted.
pub open spec fn spec_query_failure(err_text: Seq<char>) -> Seq<char> {
    "journalctl fallito: "@ + err_text + ". Prova con sudo."@
}

/// Builds the failure text for a query that exited non-success.
pub fn query_failure_message(err_text: &str) -> (r: String)
    ensures
        r@ == spec_query_failure(err_text@),
{
    String::from_str("journalctl fallito: ").concat(err_text).concat(". Prova con sudo.")
}

/// The failure text when the journal tool could not be started at
/// all: names the error and hints at retrying with elevated
/// privileges.
pub open spec fn spec_invocation_failure(detail: Seq<char>) -> Seq<char> {
    "Errore esecuzione journalctl: "@ + detail + ". Prova con sudo."@
}

/// Builds the failure text for a query that could not be started.
pub fn invocation_failure_message(detail: &str) -> (r: String)
    ensures
        r@ == spec_invocation_failure(detail@),
{
    String::from_str("Errore esecuzione journalctl: ").concat(detail).concat(". Prova con sudo.")
}

/// Turns a finished record query into its result: on a success exit
/// the decoded records — one bad output line never fails the batch —
/// and on a non-success exit the failure text, never both.
pub fn process_logs_query(success: bool, out_text: &str, err_text: &str) -> (r: Result<
    Vec<LogEntry>,
    String,
>)
    ensures
        (match r {
            Result::Ok(logs) => success && entry_views(logs@) == spec_decode_output(out_text@),
            Result::Err(e) => !success && e@ == spec_query_failure(err_text@),
        }),
{
    if success {
        Result::Ok(decode_log_output(out_text))
    } else {
        Result::Err(query_failure_message(err_text))
    }
}

/// Like `process_logs_query`, and beside the result of a successful
/// query it hands back the output lines that failed to decode, in
/// order, so the caller can surface a diagnostic for each skipped
/// line. A failed query reports no skipped lines.
pub fn process_logs_query_reporting(success: bool, out_text: &str, err_text: &str) -> (r: (
    Result<Vec<LogEntry>, String>,
    Vec<String>,
))
    ensures
        (match r.0 {
            Result::Ok(logs) => success && entry_views(logs@) == spec_decode_output(out_text@),
            Result::Err(e) => !success && e@ == spec_query_failure(err_text@),
        }),
        success ==> str_views(r.1@) == spec_skipped_lines(out_text@),
        !success ==> r.1@.len() == 0,
{
    if success {
        let (logs, skipped) = decode_log_output_reporting(out_text);
        (Result::Ok(logs), skipped)
    } else {
        (Result::Err(query_failure_message(err_text)), Vec::new())
    }
}

/// Turns a finished boot-listing query into its result: on a success
/// exit the decoded boot sessions, on a non-success exit the failure
/// text, never both.
pub fn process_boot_list_query(success: bool, out_text: &str, err_text: &str) -> (r: Result<
    Vec<BootInfo>,
    String,
>)
    ensures
        (match r {
            Result::Ok(boots) => success && boot_views(boots@) == spec_boot_list(out_text@),
            Result::Err(e) => !success && e@ == spec_query_failure(err_text@),
        }),
{
    if success {
        Result::Ok(parse_boot_list(out_text))
    } else {
        Result::Err(query_failure_message(err_text))
    }
}

} // verus!
