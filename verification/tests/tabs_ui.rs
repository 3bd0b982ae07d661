use rustysm::tab_elements::TabsElements;
use rustysm::ui_loop::{UiState, UiKey, UiAction, merge_dirty};
use rustysm::status_watcher::{QueueEntry, PlaybackState};
use rustysm::history_watcher::HistoryLogEntry;

#[test]
fn cursor_stays_in_bounds_through_any_sequence() {
    let mut t = TabsElements::new("Queue").unwrap();
    t.update_size(5);
    let ops: [u8; 12] = [0, 1, 1, 2, 3, 0, 2, 2, 2, 1, 3, 0];
    for op in ops {
        match op {
            0 => t.pos_up(),
            1 => t.pos_down(),
            2 => t.pos_jump_down(10),
            3 => t.pos_jump_up(10),
            _ => unreachable!(),
        }
        assert!(t.table_list_pos <= t.table_list_size);
    }
    t.update_size(2);
    assert!(t.table_list_pos <= 2);
    t.update_size(0);
    assert_eq!(t.table_list_pos, 0);
}

#[test]
fn cursor_moves_exactly() {
    let mut t = TabsElements::new("x").unwrap();
    t.update_size(10);
    assert_eq!(t.table_list_pos, 0);
    t.pos_up();
    assert_eq!(t.table_list_pos, 0);
    t.pos_down();
    assert_eq!(t.table_list_pos, 1);
    t.pos_jump_down(3);
    assert_eq!(t.table_list_pos, 4);
    t.pos_jump_down(100);
    assert_eq!(t.table_list_pos, 10);
    t.pos_down();
    assert_eq!(t.table_list_pos, 10);
    t.pos_jump_up(4);
    assert_eq!(t.table_list_pos, 6);
    t.pos_jump_up(100);
    assert_eq!(t.table_list_pos, 0);
}

fn entry(id: u64) -> QueueEntry {
    QueueEntry::new(id, 10, "LocalMedia".to_string(), format!("/media/{}", id))
}

fn hist(loc: &str) -> HistoryLogEntry {
    HistoryLogEntry {
        timestamp: "12:00 01-Jan 21".to_string(),
        name: "n".to_string(),
        location: loc.to_string(),
        unix_secs: 0,
    }
}

fn fresh_ui() -> UiState {
    UiState::new(TabsElements::new("Queue").unwrap(), TabsElements::new("History").unwrap())
}

#[test]
fn navigation_and_tab_switching() {
    let mut ui = fresh_ui();
    let queue = vec![entry(1), entry(2), entry(3)];
    let history: Vec<HistoryLogEntry> = vec![];
    ui.refresh_sizes(queue.len(), history.len());
    assert_eq!(ui.queue_tab.table_list_size, 2);
    assert!(matches!(
        ui.handle_key(UiKey::Down, &queue, &history, PlaybackState::Stopped),
        UiAction::Idle
    ));
    assert_eq!(ui.queue_tab.table_list_pos, 1);
    ui.handle_key(UiKey::Right, &queue, &history, PlaybackState::Stopped);
    assert_eq!(ui.tab_select, 1);
    ui.handle_key(UiKey::SelectTab(3), &queue, &history, PlaybackState::Stopped);
    assert_eq!(ui.tab_select, 3);
    ui.handle_key(UiKey::Right, &queue, &history, PlaybackState::Stopped);
    assert_eq!(ui.tab_select, 3);
    ui.handle_key(UiKey::Left, &queue, &history, PlaybackState::Stopped);
    assert_eq!(ui.tab_select, 2);
}

#[test]
fn delete_targets_selected_entry() {
    let mut ui = fresh_ui();
    let queue = vec![entry(7), entry(8), entry(9)];
    let history: Vec<HistoryLogEntry> = vec![];
    ui.refresh_sizes(queue.len(), history.len());
    ui.handle_key(UiKey::Down, &queue, &history, PlaybackState::Stopped);
    let action = ui.handle_key(UiKey::Remove, &queue, &history, PlaybackState::Stopped);
    assert!(matches!(action, UiAction::Delete(8)));
}

#[test]
fn stale_cursor_yields_no_action() {
    let mut ui = fresh_ui();
    let queue = vec![entry(7), entry(8), entry(9)];
    let history: Vec<HistoryLogEntry> = vec![];
    ui.refresh_sizes(queue.len(), history.len());
    ui.handle_key(UiKey::Down, &queue, &history, PlaybackState::Stopped);
    ui.handle_key(UiKey::Down, &queue, &history, PlaybackState::Stopped);
    let shrunk = vec![entry(7)];
    let action = ui.handle_key(UiKey::Remove, &shrunk, &history, PlaybackState::Stopped);
    assert!(matches!(action, UiAction::Idle));
}

#[test]
fn activate_on_history_queues_location() {
    let mut ui = fresh_ui();
    let queue: Vec<QueueEntry> = vec![];
    let history = vec![hist("https://a"), hist("https://b")];
    ui.refresh_sizes(queue.len(), history.len());
    ui.handle_key(UiKey::SelectTab(1), &queue, &history, PlaybackState::Stopped);
    ui.handle_key(UiKey::Down, &queue, &history, PlaybackState::Stopped);
    let action = ui.handle_key(UiKey::Activate, &queue, &history, PlaybackState::Stopped);
    match action {
        UiAction::QueueLocation(loc) => assert_eq!(loc, "https://b"),
        other => panic!("unexpected action {:?}", other),
    }
}

#[test]
fn promote_on_queue_tab() {
    let mut ui = fresh_ui();
    let queue = vec![entry(41), entry(42)];
    let history: Vec<HistoryLogEntry> = vec![];
    ui.refresh_sizes(queue.len(), history.len());
    let action = ui.handle_key(UiKey::Activate, &queue, &history, PlaybackState::Stopped);
    assert!(matches!(action, UiAction::Promote(41)));
}

#[test]
fn toggle_play_follows_playback_state() {
    let mut ui = fresh_ui();
    let queue: Vec<QueueEntry> = vec![];
    let history: Vec<HistoryLogEntry> = vec![];
    assert!(matches!(
        ui.handle_key(UiKey::TogglePlay, &queue, &history, PlaybackState::Playing),
        UiAction::Pause
    ));
    assert!(matches!(
        ui.handle_key(UiKey::TogglePlay, &queue, &history, PlaybackState::Paused),
        UiAction::Start
    ));
    assert!(matches!(
        ui.handle_key(UiKey::VolumeUp, &queue, &history, PlaybackState::Paused),
        UiAction::VolumeUp(1)
    ));
    assert!(matches!(
        ui.handle_key(UiKey::Skip, &queue, &history, PlaybackState::Paused),
        UiAction::Skip
    ));
    assert!(matches!(
        ui.handle_key(UiKey::Clear, &queue, &history, PlaybackState::Paused),
        UiAction::Clear
    ));
}

#[test]
fn redraw_rule() {
    assert!(!merge_dirty(false, false, false, false));
    assert!(merge_dirty(true, false, false, false));
    assert!(merge_dirty(false, true, false, false));
    assert!(merge_dirty(false, false, true, false));
    assert!(merge_dirty(false, false, false, true));
}

#[test]
fn refresh_sizes_uses_last_index() {
    let mut ui = fresh_ui();
    ui.refresh_sizes(0, 5);
    assert_eq!(ui.queue_tab.table_list_size, 0);
    assert_eq!(ui.history_tab.table_list_size, 4);
}
