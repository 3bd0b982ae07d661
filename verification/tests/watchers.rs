use rustysm::status_watcher::{StatusWatcher, PlaybackState, QueueInfo, parse_status,
    parse_queue, parse_time_milli, state_from_token, should_reparse, FileEvent};
use rustysm::SmError;

#[test]
fn status_scenario_playing() {
    let mut w = StatusWatcher::new("/tmp/smqueue.status".to_string(),
        "/tmp/smqueue.queue".to_string()).unwrap();
    w.ingest_status("42.5\nPlaying").unwrap();
    assert_eq!(w.status_info.playback_time, 42500);
    assert!(matches!(w.status_info.playback_state, PlaybackState::Playing));
}

#[test]
fn parse_status_exact_pair() {
    let (time, state) = parse_status("42.5\nPlaying").unwrap();
    assert_eq!(time, 42500);
    assert!(matches!(state, PlaybackState::Playing));
    let (time, state) = parse_status("0\nStopped\n").unwrap();
    assert_eq!(time, 0);
    assert!(matches!(state, PlaybackState::Stopped));
    let (time, state) = parse_status("100\nIdle\nextra ignored").unwrap();
    assert_eq!(time, 100000);
    assert!(matches!(state, PlaybackState::Idle));
}

#[test]
fn parse_status_malformed() {
    assert_eq!(parse_status("").unwrap_err(), SmError::MalformedStateFile);
    assert_eq!(parse_status("42.5").unwrap_err(), SmError::MalformedStateFile);
    assert_eq!(parse_status("abc\nPlaying").unwrap_err(), SmError::MalformedStateFile);
    assert_eq!(parse_status("42.5\nDancing").unwrap_err(), SmError::MalformedStateFile);
    assert_eq!(parse_status("4 2\nPaused").unwrap_err(), SmError::MalformedStateFile);
}

#[test]
fn bad_status_keeps_last_good_snapshot() {
    let mut w = StatusWatcher::new("s".to_string(), "q".to_string()).unwrap();
    w.ingest_status("37.25\nPaused").unwrap();
    let r = w.ingest_status("garbage\nPaused");
    assert_eq!(r.unwrap_err(), SmError::MalformedStateFile);
    assert_eq!(w.status_info.playback_time, 37250);
    assert!(matches!(w.status_info.playback_state, PlaybackState::Paused));
}

#[test]
fn time_forms() {
    assert_eq!(parse_time_milli("100"), Some(100_000));
    assert_eq!(parse_time_milli("0.125"), Some(125));
    assert_eq!(parse_time_milli("0.1259"), Some(125));
    assert_eq!(parse_time_milli(".5"), Some(500));
    assert_eq!(parse_time_milli("5."), Some(5000));
    assert_eq!(parse_time_milli("7.5"), Some(7500));
    assert_eq!(parse_time_milli("7.25"), Some(7250));
    assert_eq!(parse_time_milli(""), None);
    assert_eq!(parse_time_milli("."), None);
    assert_eq!(parse_time_milli("1.2.3"), None);
    assert_eq!(parse_time_milli("-1"), None);
    assert_eq!(parse_time_milli("12a"), None);
}

#[test]
fn state_tokens() {
    assert!(matches!(state_from_token("Playing"), Some(PlaybackState::Playing)));
    assert!(matches!(state_from_token("Paused"), Some(PlaybackState::Paused)));
    assert!(matches!(state_from_token("Idle"), Some(PlaybackState::Idle)));
    assert!(matches!(state_from_token("Stopped"), Some(PlaybackState::Stopped)));
    assert!(state_from_token("playing").is_none());
    assert!(state_from_token("").is_none());
}

#[test]
fn queue_scenario_two_entries() {
    let entries = parse_queue("7;10;LocalMedia;/home/u/movie.mkv\n3;20;YoutubeMedia;abc123 - Some Title\n")
        .unwrap();
    assert_eq!(entries.len(), 2);
    assert_eq!(entries[0].id, 7);
    assert_eq!(entries[0].priority, 10);
    assert_eq!(entries[0].entry_type, "LocalMedia");
    assert_eq!(entries[0].file_location, "/home/u/movie.mkv");
    assert_eq!(entries[1].id, 3);
    assert_eq!(entries[1].priority, 20);
    assert_eq!(entries[1].entry_type, "YoutubeMedia");
    assert_eq!(entries[1].file_location, "abc123 - Some Title");
}

#[test]
fn queue_skips_lines_without_delimiter() {
    let content = "a comment\n1;2;T;loc1\n\nplain text\n3;4;U;loc2\n";
    let entries = parse_queue(content).unwrap();
    assert_eq!(entries.len(), 2);
    assert_eq!(entries[0].id, 1);
    assert_eq!(entries[1].id, 3);
}

#[test]
fn queue_location_keeps_extra_delimiters() {
    let entries = parse_queue("5;6;T;a;b;c\n").unwrap();
    assert_eq!(entries.len(), 1);
    assert_eq!(entries[0].file_location, "a;b;c");
}

#[test]
fn queue_malformed_line_fails_whole_parse() {
    assert_eq!(parse_queue("x;10;T;loc").unwrap_err(), SmError::MalformedStateFile);
    assert_eq!(parse_queue("1;y;T;loc").unwrap_err(), SmError::MalformedStateFile);
    assert_eq!(parse_queue("1;2\n").unwrap_err(), SmError::MalformedStateFile);
}

#[test]
fn bad_queue_keeps_last_good_entries() {
    let mut w = StatusWatcher::new("s".to_string(), "q".to_string()).unwrap();
    w.ingest_queue("7;10;LocalMedia;/a\n").unwrap();
    assert!(w.ingest_queue("oops;1;T;x\n").is_err());
    assert_eq!(w.status_info.entry_list.len(), 1);
    assert_eq!(w.status_info.entry_list[0].id, 7);
}

#[test]
fn empty_queue_file_clears_entries() {
    let mut w = StatusWatcher::new("s".to_string(), "q".to_string()).unwrap();
    w.ingest_queue("7;10;LocalMedia;/a\n").unwrap();
    w.ingest_queue("").unwrap();
    assert!(w.status_info.entry_list.is_empty());
}

#[test]
fn change_flag_is_one_shot() {
    let mut w = StatusWatcher::new("s".to_string(), "q".to_string()).unwrap();
    assert!(!w.check_for_status_change());
    w.ingest_status("1\nPlaying").unwrap();
    assert!(w.check_for_status_change());
    assert!(!w.check_for_status_change());
    let _ = w.ingest_status("bad");
    assert!(w.check_for_status_change());
}

#[test]
fn reparse_rule() {
    assert!(should_reparse(FileEvent::Write));
    assert!(should_reparse(FileEvent::Create));
    assert!(!should_reparse(FileEvent::Other));
}

#[test]
fn state_labels_match_file_tokens() {
    assert_eq!(PlaybackState::Playing.label(), "Playing");
    assert_eq!(PlaybackState::Paused.label(), "Paused");
    assert_eq!(PlaybackState::Idle.label(), "Idle");
    assert_eq!(PlaybackState::Stopped.label(), "Stopped");
}

#[test]
fn initial_snapshot_is_stopped_and_empty() {
    let info = QueueInfo::new();
    assert!(matches!(info.playback_state, PlaybackState::Stopped));
    assert_eq!(info.playback_time, 0);
    assert!(info.entry_list.is_empty());
}
