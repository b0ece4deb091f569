use journal_viewer::decode::decode_log_output;
use journal_viewer::message::{Command, Message};
use journal_viewer::state::{entry_matches, JournalApp};

fn app_with_messages(messages: &[&str]) -> JournalApp {
    let mut text = String::new();
    for m in messages {
        text.push_str(&format!("{{\"MESSAGE\":\"{}\"}}\n", m));
    }
    let logs = decode_log_output(&text);
    assert_eq!(logs.len(), messages.len());
    let mut app = JournalApp::default();
    let cmd = app.update(Message::LogsLoaded(Ok(logs)));
    assert!(matches!(cmd, Command::Idle));
    app
}

#[test]
fn empty_filter_keeps_everything_in_order() {
    let app = app_with_messages(&["one", "two", "three"]);
    assert_eq!(app.filtered_logs.len(), 3);
    assert_eq!(app.filtered_logs[0].message, "one");
    assert_eq!(app.filtered_logs[1].message, "two");
    assert_eq!(app.filtered_logs[2].message, "three");
}

#[test]
fn filter_is_case_insensitive() {
    let mut app = app_with_messages(&["connection error", "all fine"]);
    app.update(Message::UpdateFilter("ERR".to_string()));
    assert_eq!(app.filtered_logs.len(), 1);
    assert_eq!(app.filtered_logs[0].message, "connection error");
}

#[test]
fn filtering_twice_equals_filtering_once() {
    let mut app = app_with_messages(&["alpha", "beta", "alpha beta"]);
    app.update(Message::UpdateFilter("alpha".to_string()));
    let once: Vec<String> = app.filtered_logs.iter().map(|e| e.message.clone()).collect();
    app.update(Message::UpdateFilter("alpha".to_string()));
    let twice: Vec<String> = app.filtered_logs.iter().map(|e| e.message.clone()).collect();
    assert_eq!(once, twice);
    assert_eq!(once, vec!["alpha".to_string(), "alpha beta".to_string()]);
}

#[test]
fn filter_matches_the_unit_too() {
    let logs = decode_log_output(
        "{\"MESSAGE\":\"started\",\"_SYSTEMD_UNIT\":\"sshd.service\"}\n{\"MESSAGE\":\"started\",\"_SYSTEMD_UNIT\":\"cron.service\"}",
    );
    let mut app = JournalApp::default();
    app.update(Message::LogsLoaded(Ok(logs)));
    app.update(Message::UpdateFilter("SSHD".to_string()));
    assert_eq!(app.filtered_logs.len(), 1);
    assert_eq!(app.filtered_logs[0].unit, "sshd.service");
}

#[test]
fn clearing_the_filter_restores_the_full_set() {
    let mut app = app_with_messages(&["aa", "bb"]);
    app.update(Message::UpdateFilter("aa".to_string()));
    assert_eq!(app.filtered_logs.len(), 1);
    let cmd = app.update(Message::ClearFilter);
    assert!(matches!(cmd, Command::Idle));
    assert_eq!(app.filter, "");
    assert_eq!(app.filtered_logs.len(), 2);
}

#[test]
fn unmatched_filter_keeps_nothing() {
    let mut app = app_with_messages(&["one", "two"]);
    app.update(Message::UpdateFilter("zzz".to_string()));
    assert_eq!(app.filtered_logs.len(), 0);
}

#[test]
fn entry_matcher_never_fails_on_odd_text() {
    let logs = decode_log_output("{\"MESSAGE\":\"caf\\u00e9 \\u2603 unicode\"}");
    assert_eq!(logs.len(), 1);
    assert!(entry_matches(&logs[0], "café"));
    assert!(!entry_matches(&logs[0], "tea"));
}

#[test]
fn load_request_carries_the_line_count() {
    let mut app = JournalApp::default();
    app.update(Message::UpdateLineCount("250".to_string()));
    let cmd = app.update(Message::LoadLogs);
    assert!(app.loading);
    assert!(app.error_message.is_none());
    match cmd {
        Command::LoadByLineCount(count) => assert_eq!(count, "250"),
        other => panic!("expected a line-count load, got {:?}", other),
    }
}

#[test]
fn failed_load_reports_and_keeps_records() {
    let mut app = app_with_messages(&["kept"]);
    let cmd = app.update(Message::LogsLoaded(Err("journalctl fallito: denied. Prova con sudo.".to_string())));
    assert!(matches!(cmd, Command::Idle));
    assert!(!app.loading);
    assert_eq!(app.error_message.as_deref(), Some("journalctl fallito: denied. Prova con sudo."));
    assert_eq!(app.logs.len(), 1);
    assert_eq!(app.filtered_logs.len(), 1);
}

#[test]
fn boot_selection_requests_that_boot() {
    let mut app = JournalApp::default();
    app.show_boot_list = true;
    let cmd = app.update(Message::SelectBoot(-2));
    assert!(app.loading);
    assert!(!app.show_boot_list);
    match cmd {
        Command::LoadByBoot(offset) => assert_eq!(offset, -2),
        other => panic!("expected a boot load, got {:?}", other),
    }
}

#[test]
fn current_boot_request_uses_offset_zero() {
    let mut app = JournalApp::default();
    let cmd = app.update(Message::ShowCurrentBoot);
    match cmd {
        Command::LoadByBoot(offset) => assert_eq!(offset, 0),
        other => panic!("expected a boot load, got {:?}", other),
    }
}

#[test]
fn boot_list_flow_sets_and_clears_state() {
    let mut app = JournalApp::default();
    let cmd = app.update(Message::ShowBootList);
    assert!(matches!(cmd, Command::LoadBootList));
    assert!(app.loading);
    assert!(app.show_boot_list);
    let boots = journal_viewer::boots::parse_boot_list("0 id 2024-01-01 00:00:00 UTC");
    app.update(Message::BootListLoaded(Ok(boots)));
    assert!(!app.loading);
    assert_eq!(app.boot_list.len(), 1);
    assert!(app.show_boot_list);
    app.update(Message::BootListLoaded(Err("journalctl fallito: no. Prova con sudo.".to_string())));
    assert!(!app.show_boot_list);
    assert_eq!(app.error_message.as_deref(), Some("journalctl fallito: no. Prova con sudo."));
}

#[test]
fn export_changes_nothing() {
    let mut app = app_with_messages(&["stay"]);
    let cmd = app.update(Message::Export);
    assert!(matches!(cmd, Command::Idle));
    assert_eq!(app.logs.len(), 1);
    assert_eq!(app.filtered_logs.len(), 1);
    assert!(!app.loading);
}

#[test]
fn default_state_is_idle_and_empty() {
    let app = JournalApp::default();
    assert_eq!(app.logs.len(), 0);
    assert_eq!(app.filtered_logs.len(), 0);
    assert_eq!(app.filter, "");
    assert_eq!(app.line_count, "100");
    assert!(!app.loading);
    assert!(app.error_message.is_none());
    assert_eq!(app.boot_list.len(), 0);
    assert!(!app.show_boot_list);
}
