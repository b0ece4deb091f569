use journal_viewer::boots::{decode_boot_line, parse_boot_list};

#[test]
fn boot_line_decodes_positionally() {
    let line = "-1 abc123 2024-01-15 10:23:45 CET 2024-01-15 18:45:32 CET";
    let boots = parse_boot_list(line);
    assert_eq!(boots.len(), 1);
    assert_eq!(boots[0].boot_offset, -1);
    assert_eq!(boots[0].boot_id, "abc123");
    assert_eq!(boots[0].first_entry, "2024-01-15 10:23:45");
    assert_eq!(boots[0].last_entry, "2024-01-15 18:45:32");
}

#[test]
fn short_line_is_dropped_without_aborting() {
    let text = "a b c d\n0 id0 2024-02-01 09:00:00 UTC";
    let boots = parse_boot_list(text);
    assert_eq!(boots.len(), 1);
    assert_eq!(boots[0].boot_id, "id0");
    assert_eq!(boots[0].boot_offset, 0);
    assert_eq!(boots[0].first_entry, "2024-02-01 09:00:00");
    assert_eq!(boots[0].last_entry, "N/A");
}

#[test]
fn six_column_line_has_open_end() {
    let line = "-2 deadbeef 2024-03-01 08:00:00 CET 2024-03-02";
    let b = decode_boot_line(line).expect("five columns are enough");
    assert_eq!(b.last_entry, "N/A");
}

#[test]
fn unparseable_offset_defaults_to_zero() {
    let line = "xyz id9 2024-04-01 12:00:00 UTC";
    let b = decode_boot_line(line).expect("five columns are enough");
    assert_eq!(b.boot_offset, 0);
    assert_eq!(b.boot_id, "id9");
}

#[test]
fn four_column_line_yields_nothing() {
    assert!(decode_boot_line("-1 abc 2024-01-15 10:23:45").is_none());
    assert!(decode_boot_line("").is_none());
}

#[test]
fn boot_list_keeps_line_order() {
    let text = "0 current 2024-05-01 07:00:00 UTC\n-1 older 2024-04-01 07:00:00 UTC\n";
    let boots = parse_boot_list(text);
    assert_eq!(boots.len(), 2);
    assert_eq!(boots[0].boot_id, "current");
    assert_eq!(boots[1].boot_id, "older");
}

#[test]
fn empty_boot_list_output() {
    assert_eq!(parse_boot_list("").len(), 0);
    assert_eq!(parse_boot_list("\n\n").len(), 0);
}

#[test]
fn tabs_count_as_column_separators() {
    let line = "5\tid5\t2024-06-01\t10:00:00\tUTC";
    let b = decode_boot_line(line).expect("five columns are enough");
    assert_eq!(b.boot_offset, 5);
    assert_eq!(b.first_entry, "2024-06-01 10:00:00");
}
