use rustysm::history_watcher::{HistoryWatcher, parse_history, DEFAULT_HISTORY_ENTRIES_TO_FETCH};
use rustysm::SmError;

fn log_of(n: u64) -> String {
    let mut s = String::new();
    for i in 0..n {
        s.push_str(&format!("{}\tname{}\tloc{}\n", 1_600_000_000 + i, i, i));
    }
    s
}

#[test]
fn hundred_most_recent_newest_first() {
    let content = log_of(150);
    let entries = parse_history(&content, DEFAULT_HISTORY_ENTRIES_TO_FETCH, 0).unwrap();
    assert_eq!(entries.len(), 100);
    assert_eq!(entries[0].name, "name149");
    assert_eq!(entries[0].location, "loc149");
    assert_eq!(entries[0].unix_secs, 1_600_000_149);
    assert_eq!(entries[99].name, "name50");
    assert_eq!(entries[99].unix_secs, 1_600_000_050);
    for w in entries.windows(2) {
        assert!(w[0].unix_secs > w[1].unix_secs);
    }
    for e in &entries {
        assert_eq!(e.timestamp.chars().count(), 15);
    }
}

#[test]
fn tail_offset_skips_newest_lines() {
    let content = log_of(150);
    let entries = parse_history(&content, 100, 50).unwrap();
    assert_eq!(entries.len(), 100);
    assert_eq!(entries[0].name, "name99");
    assert_eq!(entries[99].name, "name0");
}

#[test]
fn short_file_yields_all_lines() {
    let content = log_of(3);
    let entries = parse_history(&content, 100, 0).unwrap();
    assert_eq!(entries.len(), 3);
    assert_eq!(entries[0].name, "name2");
    assert_eq!(entries[2].name, "name0");
}

#[test]
fn offset_past_end_yields_nothing() {
    let content = log_of(3);
    let entries = parse_history(&content, 100, 10).unwrap();
    assert!(entries.is_empty());
}

#[test]
fn lines_with_fewer_fields_are_skipped() {
    let content = "1000\ta\tx\nnot enough fields\n2000\tb\ty\nshort\tline\n3000\tc\tz\n";
    let entries = parse_history(content, 100, 0).unwrap();
    assert_eq!(entries.len(), 3);
    assert_eq!(entries[0].name, "c");
    assert_eq!(entries[1].name, "b");
    assert_eq!(entries[2].name, "a");
}

#[test]
fn location_keeps_extra_tabs() {
    let entries = parse_history("1000\ta\tx\ty\tz\n", 100, 0).unwrap();
    assert_eq!(entries.len(), 1);
    assert_eq!(entries[0].location, "x\ty\tz");
}

#[test]
fn bad_timestamp_is_a_hard_error() {
    let content = "1000\ta\tx\nnot_a_number\tb\ty\n";
    assert_eq!(parse_history(content, 100, 0).unwrap_err(), SmError::MalformedStateFile);
}

#[test]
fn count_limits_collected_entries_only() {
    let content = "1\ta\tx\nskip me\n2\tb\ty\n3\tc\tz\n";
    let entries = parse_history(content, 2, 0).unwrap();
    assert_eq!(entries.len(), 2);
    assert_eq!(entries[0].name, "c");
    assert_eq!(entries[1].name, "b");
}

#[test]
fn watcher_replaces_listing_and_flags_change() {
    let mut w = HistoryWatcher::new("/tmp/.sm_history".to_string(), 100, 0).unwrap();
    assert!(!w.check_for_status_change());
    w.ingest("1000\ta\tx\n").unwrap();
    assert!(w.check_for_status_change());
    let listing = w.get_history();
    assert_eq!(listing.len(), 1);
    assert_eq!(listing[0].name, "a");
    assert!(w.ingest("bad\tb\ty\n").is_err());
    assert_eq!(w.get_history().len(), 1);
    assert!(w.check_for_status_change());
}

#[test]
fn timestamp_formatting_changes_the_seconds() {
    let entries = parse_history("1600000000\ta\tx\n", 100, 0).unwrap();
    assert_eq!(entries[0].unix_secs, 1_600_000_000);
    assert_ne!(entries[0].timestamp, "1600000000");
    assert_eq!(entries[0].timestamp.chars().count(), 15);
}

#[test]
fn zero_count_collects_nothing() {
    let entries = parse_history("1000\ta\tx\n", 0, 0).unwrap();
    assert!(entries.is_empty());
}
