use journal_viewer::query::{
    boot_list_query_args, boot_query_args, invocation_failure_message, line_count_query_args,
    process_boot_list_query, process_logs_query, process_logs_query_reporting, query_args_with,
};

const FIELDS: &str =
    "--output-fields=MESSAGE,_SYSTEMD_UNIT,PRIORITY,__REALTIME_TIMESTAMP,SYSLOG_IDENTIFIER";

#[test]
fn line_count_query_has_the_fixed_shape() {
    let args = line_count_query_args("50");
    assert_eq!(args, vec!["-n", "50", "--no-pager", "-o", "json", FIELDS]);
}

#[test]
fn bad_count_text_substitutes_the_default() {
    assert_eq!(line_count_query_args("abc"), line_count_query_args("100"));
    assert_eq!(line_count_query_args(""), line_count_query_args("100"));
    assert_eq!(line_count_query_args("12x"), line_count_query_args("100"));
    let args = line_count_query_args("abc");
    assert_eq!(args[1], "100");
}

#[test]
fn boot_query_has_the_fixed_shape() {
    let args = boot_query_args(-1);
    assert_eq!(args, vec!["-b", "-1", "--no-pager", "-o", "json", FIELDS]);
    assert_eq!(boot_query_args(0)[1], "0");
}

#[test]
fn boot_list_query_has_the_fixed_shape() {
    assert_eq!(boot_list_query_args(), vec!["--list-boots", "--no-pager"]);
}

#[test]
fn extra_arguments_come_first() {
    let args = query_args_with(vec!["-b".to_string(), "3".to_string()]);
    assert_eq!(args, vec!["-b", "3", "--no-pager", "-o", "json", FIELDS]);
}

#[test]
fn successful_query_decodes_its_output() {
    let out = "{\"MESSAGE\":\"ready\"}\nbroken line\n";
    let r = process_logs_query(true, out, "");
    let logs = r.expect("a success exit must yield records");
    assert_eq!(logs.len(), 1);
    assert_eq!(logs[0].message, "ready");
}

#[test]
fn failed_query_reports_its_diagnostic() {
    let r = process_logs_query(false, "", "permission denied");
    assert_eq!(
        r.unwrap_err(),
        "journalctl fallito: permission denied. Prova con sudo.",
    );
}

#[test]
fn successful_query_reports_its_skipped_lines() {
    let out = "{\"MESSAGE\":\"ready\"}\nbroken line\n \n{\"MESSAGE\":\"set\"}\nanother bad one";
    let (r, skipped) = process_logs_query_reporting(true, out, "");
    let logs = r.expect("a success exit must yield records");
    assert_eq!(logs.len(), 2);
    assert_eq!(skipped, vec!["broken line", "another bad one"]);
}

#[test]
fn failed_query_reports_no_skipped_lines() {
    let (r, skipped) = process_logs_query_reporting(false, "", "denied");
    assert_eq!(r.unwrap_err(), "journalctl fallito: denied. Prova con sudo.");
    assert_eq!(skipped.len(), 0);
}

#[test]
fn successful_boot_listing_decodes_its_output() {
    let r = process_boot_list_query(true, "0 id 2024-01-01 00:00:00 UTC", "");
    let boots = r.expect("a success exit must yield boot sessions");
    assert_eq!(boots.len(), 1);
    assert_eq!(boots[0].boot_id, "id");
}

#[test]
fn failed_boot_listing_reports_its_diagnostic() {
    let r = process_boot_list_query(false, "", "nope");
    assert_eq!(r.unwrap_err(), "journalctl fallito: nope. Prova con sudo.");
}

#[test]
fn invocation_failure_hints_at_privileges() {
    assert_eq!(
        invocation_failure_message("command not found"),
        "Errore esecuzione journalctl: command not found. Prova con sudo.",
    );
}
